use global_hotkey::media::{
    event_modifiers, flags_changed_hotkey, CG_EVENT_FLAGS_CHANGED, CG_EVENT_SYSTEM_DEFINED, EVENT_FLAG_COMMAND,
    EVENT_FLAG_CONTROL, EVENT_FLAG_FUNCTION, EVENT_FLAG_SHIFT, NS_EVENT_SUBTYPE_SCREEN_CHANGED, NS_EVENT_TYPE_SYSTEM_DEFINED,
};
use global_hotkey::modifiers::{CONTROL, META, SHIFT};
use global_hotkey::{Code, GlobalHotKeyEvent, HotKey, HotKeyState, MediaState, Modifiers, TapEventKind, NX_KEYTYPE};

fn data1(key: i64, state: i64) -> i64 {
    (key << 16) | (state << 8)
}

#[test]
fn classify_tap_events() {
    assert_eq!(MediaState::classify(CG_EVENT_FLAGS_CHANGED), TapEventKind::FlagsChanged);
    assert_eq!(MediaState::classify(CG_EVENT_SYSTEM_DEFINED), TapEventKind::SystemDefined);
    assert_eq!(MediaState::classify(10), TapEventKind::Other);
}

#[test]
fn event_flags_to_modifiers() {
    assert_eq!(event_modifiers(0), Modifiers::empty());
    assert_eq!(event_modifiers(EVENT_FLAG_SHIFT | EVENT_FLAG_COMMAND), Modifiers::from_flags(SHIFT | META));
    assert_eq!(event_modifiers(EVENT_FLAG_CONTROL | 0x100), Modifiers::from_flags(CONTROL));
}

#[test]
fn flags_changed_hotkey_leaves_own_modifier_out() {
    let h = flags_changed_hotkey(0x38, EVENT_FLAG_SHIFT | EVENT_FLAG_CONTROL).unwrap();
    assert_eq!(h, HotKey::new(Some(Modifiers::from_flags(CONTROL)), Code::ShiftLeft));
    assert_eq!(flags_changed_hotkey(0x00, EVENT_FLAG_SHIFT), None);
}

#[test]
fn modifier_key_press_and_release() {
    let mut media = MediaState::new();
    let hk = HotKey::new(None, Code::ControlLeft);
    assert!(media.insert(hk));
    assert!(!media.insert(hk));
    let pressed = media.on_flags_changed(0x3B, EVENT_FLAG_CONTROL, false);
    assert_eq!(pressed, Some(GlobalHotKeyEvent { id: hk.id(), state: HotKeyState::Pressed }));
    let released = media.on_flags_changed(0x3B, 0, false);
    assert_eq!(released, Some(GlobalHotKeyEvent { id: hk.id(), state: HotKeyState::Released }));
    assert_eq!(media.on_flags_changed(0x3B, EVENT_FLAG_CONTROL, true), Some(GlobalHotKeyEvent { id: hk.id(), state: HotKeyState::Pressed }));
    assert_eq!(media.on_flags_changed(0x3B, EVENT_FLAG_CONTROL, true), None);
}

#[test]
fn unwatched_modifier_key_reports_nothing() {
    let mut media = MediaState::new();
    assert!(media.insert(HotKey::new(None, Code::ControlLeft)));
    assert_eq!(media.on_flags_changed(0x3B, EVENT_FLAG_CONTROL | EVENT_FLAG_SHIFT, false), None);
    assert_eq!(media.on_flags_changed(0x3E, EVENT_FLAG_CONTROL, false), None);
}

#[test]
fn media_key_down_and_up() {
    let mut media = MediaState::new();
    let play = HotKey::new(None, Code::MediaPlayPause);
    media.insert(play);
    let t = NS_EVENT_TYPE_SYSTEM_DEFINED;
    let st = NS_EVENT_SUBTYPE_SCREEN_CHANGED;
    assert_eq!(media.on_system_defined(t, st, data1(16, 0xA), 0), Some(GlobalHotKeyEvent { id: play.id(), state: HotKeyState::Pressed }));
    assert_eq!(media.on_system_defined(t, st, data1(16, 0xB), 0), Some(GlobalHotKeyEvent { id: play.id(), state: HotKeyState::Released }));
    assert_eq!(media.on_system_defined(t, st, data1(17, 0xA), 0), None);
    assert_eq!(media.on_system_defined(t, st, data1(16, 0xA), EVENT_FLAG_SHIFT), None);
    assert_eq!(media.on_system_defined(t, 7, data1(16, 0xA), 0), None);
    assert_eq!(media.on_system_defined(t, st, data1(3, 0xA), 0), None);
}

#[test]
fn media_key_with_modifiers() {
    let mut media = MediaState::new();
    let next = HotKey::new(Some(Modifiers::from_flags(SHIFT)), Code::MediaTrackNext);
    media.insert(next);
    assert_eq!(
        media.on_system_defined(NS_EVENT_TYPE_SYSTEM_DEFINED, NS_EVENT_SUBTYPE_SCREEN_CHANGED, data1(17, 0xA), EVENT_FLAG_SHIFT),
        Some(GlobalHotKeyEvent { id: next.id(), state: HotKeyState::Pressed })
    );
    assert!(media.remove(&next));
    assert!(!media.remove(&next));
    assert!(media.is_empty());
}

#[test]
fn command_key_counts_as_super() {
    let mut media = MediaState::new();
    let hk = HotKey::new(Some(Modifiers::from_flags(global_hotkey::modifiers::SUPER)), Code::ShiftLeft);
    media.insert(hk);
    assert_eq!(
        media.on_flags_changed(0x38, EVENT_FLAG_SHIFT | EVENT_FLAG_COMMAND, true),
        Some(GlobalHotKeyEvent { id: hk.id(), state: HotKeyState::Pressed })
    );
}

#[test]
fn fn_key_press_and_release() {
    let mut media = MediaState::new();
    let fn_key = HotKey::new(None, Code::Fn);
    media.insert(fn_key);
    assert_eq!(
        media.on_flags_changed(0x3F, EVENT_FLAG_FUNCTION, true),
        Some(GlobalHotKeyEvent { id: fn_key.id(), state: HotKeyState::Pressed })
    );
    assert_eq!(
        media.on_flags_changed(0x3F, 0, false),
        Some(GlobalHotKeyEvent { id: fn_key.id(), state: HotKeyState::Released })
    );
}

#[test]
fn fn_flag_is_a_modifier() {
    assert_eq!(event_modifiers(EVENT_FLAG_FUNCTION), Modifiers::from_flags(global_hotkey::modifiers::FN));
    let h = flags_changed_hotkey(0x38, EVENT_FLAG_SHIFT | EVENT_FLAG_FUNCTION).unwrap();
    assert_eq!(h, HotKey::new(Some(Modifiers::from_flags(global_hotkey::modifiers::FN)), Code::ShiftLeft));
}

#[test]
fn modifier_key_events_alternate() {
    let mut media = MediaState::new();
    let hk = HotKey::new(None, Code::AltRight);
    media.insert(hk);
    let mut states = Vec::new();
    for (flags, down) in [(0x8_0000u64, false), (0, false), (0x8_0000, true), (0x8_0000, true), (0, false), (0, true)] {
        if let Some(ev) = media.on_flags_changed(0x3D, flags, down) {
            states.push(ev.state);
        }
    }
    assert_eq!(
        states,
        vec![HotKeyState::Pressed, HotKeyState::Released, HotKeyState::Pressed, HotKeyState::Released, HotKeyState::Pressed]
    );
}

#[test]
fn nx_keytype_values() {
    assert!(matches!(NX_KEYTYPE::try_from(16i64), Ok(NX_KEYTYPE::Play)));
    assert!(matches!(NX_KEYTYPE::try_from(20i64), Ok(NX_KEYTYPE::Rewind)));
    match NX_KEYTYPE::try_from(15i64) {
        Err(e) => assert_eq!(e, "Not defined media key"),
        Ok(_) => panic!("15 is no media key"),
    }
    assert_eq!(Code::from(NX_KEYTYPE::Play), Code::MediaPlayPause);
    assert_eq!(Code::from(NX_KEYTYPE::Next), Code::MediaTrackNext);
    assert_eq!(Code::from(NX_KEYTYPE::Previous), Code::MediaTrackPrevious);
    assert_eq!(Code::from(NX_KEYTYPE::Fast), Code::MediaFastForward);
    assert_eq!(Code::from(NX_KEYTYPE::Rewind), Code::MediaRewind);
    for k in [NX_KEYTYPE::Play, NX_KEYTYPE::Next, NX_KEYTYPE::Previous, NX_KEYTYPE::Fast, NX_KEYTYPE::Rewind] {
        assert!(global_hotkey::requires_event_tap(Code::from(k)));
        assert_eq!(global_hotkey::key_to_scancode(Code::from(k)), None);
    }
}
