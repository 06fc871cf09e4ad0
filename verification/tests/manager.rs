use global_hotkey::modifiers::{CONTROL, SHIFT};
use global_hotkey::{
    BatchStep, CarbonRegistration, Code, Error, EventHotKeyId, EventTapRelease, GlobalHotKeyManager,
    HotKey, MediaState, Modifiers, RegisterStep, UnregisterStep,
};

/// Answers that a scripted system gives.
struct FakeSystem {
    carbon_ok: bool,
    tap: Option<u64>,
    source: Option<u64>,
    next_handle: u64,
    registered: Vec<CarbonRegistration>,
    enabled: Vec<(u64, u64)>,
    released: Vec<u64>,
}

impl FakeSystem {
    fn new() -> Self {
        FakeSystem {
            carbon_ok: true,
            tap: Some(900),
            source: Some(901),
            next_handle: 100,
            registered: Vec::new(),
            enabled: Vec::new(),
            released: Vec::new(),
        }
    }

    fn carbon(&mut self, req: CarbonRegistration) -> Option<u64> {
        self.registered.push(req);
        if self.carbon_ok {
            self.next_handle += 1;
            Some(self.next_handle)
        } else {
            None
        }
    }

    fn register(&mut self, mgr: &mut GlobalHotKeyManager, media: &mut MediaState, hotkey: HotKey) -> Result<(), Error> {
        let mut step = mgr.register(media, hotkey);
        loop {
            step = match step {
                RegisterStep::RegisterWithCarbon(req) => {
                    let h = self.carbon(req);
                    mgr.carbon_registered(hotkey, h)
                }
                RegisterStep::CreateEventTap => {
                    let tap = self.tap;
                    mgr.event_tap_created(media, hotkey, tap)
                }
                RegisterStep::CreateRunLoopSource { tap } => {
                    let source = self.source;
                    mgr.run_loop_source_created(tap, source)
                }
                RegisterStep::EnableEventTap { tap, source } => {
                    self.enabled.push((tap, source));
                    return Ok(());
                }
                RegisterStep::ReleaseEventTap { tap } => {
                    self.released.push(tap);
                    mgr.event_tap_released(media, hotkey)
                }
                RegisterStep::RegisterFallbackWithCarbon(req) => {
                    let h = self.carbon(req);
                    mgr.fallback_registered(hotkey, h)
                }
                RegisterStep::Done(r) => return r,
            }
        }
    }

    fn unregister(&mut self, mgr: &mut GlobalHotKeyManager, media: &mut MediaState, hotkey: HotKey) -> (Result<(), Error>, Option<u64>, Option<EventTapRelease>) {
        match mgr.unregister(media, hotkey) {
            UnregisterStep::UnregisterFromCarbon { handle } => match GlobalHotKeyManager::carbon_unregistered(hotkey, self.carbon_ok) {
                UnregisterStep::Done(r) => (r, Some(handle), None),
                _ => unreachable!(),
            },
            UnregisterStep::StopWatching(release) => (Ok(()), None, Some(release)),
            UnregisterStep::Done(r) => (r, None, None),
        }
    }
}

fn setup() -> (GlobalHotKeyManager, MediaState, FakeSystem) {
    (GlobalHotKeyManager::new(Ok(7)).unwrap(), MediaState::new(), FakeSystem::new())
}

#[test]
fn new_reports_os_error() {
    match GlobalHotKeyManager::new(Err(-9876)) {
        Err(Error::OsError(code)) => assert_eq!(code, -9876),
        _ => panic!("expected an OS error"),
    }
    assert_eq!(GlobalHotKeyManager::new(Ok(42)).unwrap().event_handler(), 42);
}

#[test]
fn carbon_key_is_registered_with_carbon() {
    let (mut mgr, mut media, mut sys) = setup();
    let hk = HotKey::new(Some(Modifiers::from_flags(SHIFT | CONTROL)), Code::KeyD);
    assert!(sys.register(&mut mgr, &mut media, hk).is_ok());
    assert_eq!(
        sys.registered,
        vec![CarbonRegistration {
            scan_code: 0x02,
            modifiers: 512 + 4096,
            hotkey_id: EventHotKeyId { signature: 0x6874_7273, id: hk.id() },
        }]
    );
    assert_eq!(mgr.registered_hotkeys(), vec![hk]);
    let (r, handle, release) = sys.unregister(&mut mgr, &mut media, hk);
    assert!(r.is_ok());
    assert_eq!(handle, Some(101));
    assert_eq!(release, None);
    assert!(mgr.registered_hotkeys().is_empty());
}

#[test]
fn carbon_refusal_is_reported() {
    let (mut mgr, mut media, mut sys) = setup();
    sys.carbon_ok = false;
    let hk = HotKey::new(None, Code::KeyA);
    match sys.register(&mut mgr, &mut media, hk) {
        Err(Error::FailedToRegister(msg)) => assert_eq!(msg, "RegisterEventHotKey failed for KeyA"),
        other => panic!("unexpected {:?}", other),
    }
    assert!(mgr.registered_hotkeys().is_empty());
}

#[test]
fn unknown_key_fails_without_system_calls() {
    let (mut mgr, mut media, mut sys) = setup();
    let hk = HotKey::new(None, Code::F21);
    match sys.register(&mut mgr, &mut media, hk) {
        Err(Error::FailedToRegister(msg)) => assert_eq!(msg, "Unknown scancode for F21"),
        other => panic!("unexpected {:?}", other),
    }
    assert!(sys.registered.is_empty());
    assert!(media.is_empty());
}

#[test]
fn media_key_sets_up_event_tap_once() {
    let (mut mgr, mut media, mut sys) = setup();
    let play = HotKey::new(None, Code::MediaPlayPause);
    let next = HotKey::new(None, Code::MediaTrackNext);
    assert!(sys.register(&mut mgr, &mut media, play).is_ok());
    assert_eq!(sys.enabled, vec![(900, 901)]);
    assert!(sys.register(&mut mgr, &mut media, next).is_ok());
    assert_eq!(sys.enabled.len(), 1);
    assert!(media.contains(&play) && media.contains(&next));
    assert!(sys.registered.is_empty());
    match sys.register(&mut mgr, &mut media, play) {
        Err(Error::AlreadyRegistered(h)) => assert_eq!(h, play),
        other => panic!("unexpected {:?}", other),
    }
    let (r, _, release) = sys.unregister(&mut mgr, &mut media, play);
    assert!(r.is_ok());
    assert_eq!(release, None);
    let (r, _, release) = sys.unregister(&mut mgr, &mut media, next);
    assert!(r.is_ok());
    assert_eq!(release, Some(EventTapRelease { source: Some(901), tap: Some(900) }));
    assert!(media.is_empty());
    assert_eq!(mgr.stop_watching_media_keys(), EventTapRelease { source: None, tap: None });
}

#[test]
fn modifier_key_falls_back_to_carbon_without_event_tap() {
    let (mut mgr, mut media, mut sys) = setup();
    sys.tap = None;
    let ctrl = HotKey::new(None, Code::ControlLeft);
    assert!(sys.register(&mut mgr, &mut media, ctrl).is_ok());
    assert_eq!(sys.registered.len(), 1);
    assert_eq!(sys.registered[0].scan_code, 0x3B);
    assert!(!media.contains(&ctrl));
    assert_eq!(mgr.registered_hotkeys(), vec![ctrl]);
}

#[test]
fn run_loop_source_failure_releases_tap_and_falls_back() {
    let (mut mgr, mut media, mut sys) = setup();
    sys.source = None;
    let shift = HotKey::new(None, Code::ShiftRight);
    assert!(sys.register(&mut mgr, &mut media, shift).is_ok());
    assert_eq!(sys.released, vec![900]);
    assert_eq!(sys.registered[0].scan_code, 0x3C);
    assert_eq!(mgr.stop_watching_media_keys(), EventTapRelease { source: None, tap: None });
}

#[test]
fn media_key_without_event_tap_fails() {
    let (mut mgr, mut media, mut sys) = setup();
    sys.tap = None;
    let play = HotKey::new(None, Code::MediaPlayPause);
    match sys.register(&mut mgr, &mut media, play) {
        Err(Error::FailedToWatchMediaKeyEvent) => {}
        other => panic!("unexpected {:?}", other),
    }
    assert!(media.contains(&play));
}

#[test]
fn fallback_refusal_reports_watch_failure() {
    let (mut mgr, mut media, mut sys) = setup();
    sys.tap = None;
    sys.carbon_ok = false;
    let alt = HotKey::new(None, Code::AltLeft);
    match sys.register(&mut mgr, &mut media, alt) {
        Err(Error::FailedToWatchMediaKeyEvent) => {}
        other => panic!("unexpected {:?}", other),
    }
    assert!(!media.contains(&alt));
    assert!(mgr.registered_hotkeys().is_empty());
}

#[test]
fn unregister_failure_and_unknown() {
    let (mut mgr, mut media, mut sys) = setup();
    let hk = HotKey::new(None, Code::KeyQ);
    let (r, handle, _) = sys.unregister(&mut mgr, &mut media, hk);
    assert!(r.is_ok());
    assert_eq!(handle, None);
    assert!(sys.register(&mut mgr, &mut media, hk).is_ok());
    sys.carbon_ok = false;
    let (r, handle, _) = sys.unregister(&mut mgr, &mut media, hk);
    assert_eq!(handle, Some(101));
    match r {
        Err(Error::FailedToUnRegister(h)) => assert_eq!(h, hk),
        other => panic!("unexpected {:?}", other),
    }
}

#[test]
fn register_all_stops_at_first_error() {
    let (mut mgr, mut media, mut sys) = setup();
    let a = HotKey::new(None, Code::KeyA);
    let bad = HotKey::new(None, Code::F21);
    let c = HotKey::new(None, Code::KeyC);
    let mut batch = mgr.register_all(&[a, bad, c]);
    let mut previous = Ok(());
    let mut seen = Vec::new();
    let result = loop {
        match batch.next(previous) {
            BatchStep::Register(h) => {
                seen.push(h);
                previous = sys.register(&mut mgr, &mut media, h);
            }
            BatchStep::Unregister(_) => panic!("not an unregistering batch"),
            BatchStep::Done(r) => break r,
        }
    };
    assert_eq!(seen, vec![a, bad]);
    assert!(matches!(result, Err(Error::FailedToRegister(_))));
    assert_eq!(mgr.registered_hotkeys(), vec![a]);
}

#[test]
fn unregister_all_visits_each_in_order() {
    let (mut mgr, mut media, mut sys) = setup();
    let a = HotKey::new(None, Code::KeyA);
    let c = HotKey::new(None, Code::KeyC);
    assert!(sys.register(&mut mgr, &mut media, a).is_ok());
    assert!(sys.register(&mut mgr, &mut media, c).is_ok());
    let mut batch = mgr.unregister_all(&[c, a]);
    let mut previous = Ok(());
    let mut seen = Vec::new();
    let result = loop {
        match batch.next(previous) {
            BatchStep::Unregister(h) => {
                seen.push(h);
                previous = sys.unregister(&mut mgr, &mut media, h).0;
            }
            BatchStep::Register(_) => panic!("not a registering batch"),
            BatchStep::Done(r) => break r,
        }
    };
    assert_eq!(seen, vec![c, a]);
    assert!(result.is_ok());
    assert!(mgr.registered_hotkeys().is_empty());
}

#[test]
fn registered_hotkeys_in_id_order() {
    let (mut mgr, mut media, mut sys) = setup();
    let c = HotKey::new(None, Code::KeyC);
    let a = HotKey::new(Some(Modifiers::from_flags(SHIFT)), Code::KeyA);
    let b = HotKey::new(None, Code::KeyB);
    for h in [c, a, b] {
        assert!(sys.register(&mut mgr, &mut media, h).is_ok());
    }
    assert_eq!(mgr.registered_hotkeys(), vec![b, c, a]);
}

#[test]
fn fn_key_registers_through_event_tap() {
    let (mut mgr, mut media, mut sys) = setup();
    let fn_key = HotKey::new(None, Code::Fn);
    assert!(sys.register(&mut mgr, &mut media, fn_key).is_ok());
    assert_eq!(sys.enabled, vec![(900, 901)]);
    assert!(sys.registered.is_empty());
    assert!(media.contains(&fn_key));
}

#[test]
fn fn_key_without_event_tap_fails() {
    let (mut mgr, mut media, mut sys) = setup();
    sys.tap = None;
    let fn_key = HotKey::new(None, Code::Fn);
    match sys.register(&mut mgr, &mut media, fn_key) {
        Err(Error::FailedToWatchMediaKeyEvent) => {}
        other => panic!("unexpected {:?}", other),
    }
    assert!(sys.registered.is_empty());
}

#[test]
fn register_all_then_unregister_all_restores() {
    let (mut mgr, mut media, mut sys) = setup();
    let before = HotKey::new(None, Code::KeyZ);
    assert!(sys.register(&mut mgr, &mut media, before).is_ok());
    let hotkeys = [
        HotKey::new(None, Code::KeyA),
        HotKey::new(None, Code::MediaPlayPause),
        HotKey::new(Some(Modifiers::from_flags(SHIFT)), Code::ShiftRight),
        HotKey::new(None, Code::Fn),
    ];
    for h in hotkeys {
        assert!(sys.register(&mut mgr, &mut media, h).is_ok());
    }
    for h in hotkeys {
        assert!(sys.unregister(&mut mgr, &mut media, h).0.is_ok());
    }
    assert_eq!(mgr.registered_hotkeys(), vec![before]);
    assert!(media.is_empty());
}
