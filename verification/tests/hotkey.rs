use global_hotkey::handler::{EVENT_HOTKEY_PRESSED, EVENT_HOTKEY_RELEASED};
use global_hotkey::modifiers::{CONTROL, FN, META, SHIFT, SHIFT_LEFT, SUPER, SUPER_RIGHT};
use global_hotkey::{hotkey_handler, modifiers_match, Code, GlobalHotKeyEvent, HotKey, HotKeyState, Modifiers, SideKeyStates};

fn keys(shift_left: bool, super_right: bool) -> SideKeyStates {
    SideKeyStates {
        shift_left,
        shift_right: false,
        control_left: false,
        control_right: false,
        alt_left: false,
        alt_right: false,
        super_left: false,
        super_right,
        fn_key: false,
    }
}

#[test]
fn hotkey_id_packs_modifiers_and_key() {
    let h = HotKey::new(Some(Modifiers::from_flags(SHIFT)), Code::KeyD);
    assert_eq!(h.id(), (1 << 16) | 22);
    assert_eq!(h.id() >> 16, SHIFT as u32);
    let plain = HotKey::new(None, Code::KeyD);
    assert_eq!(plain.id(), 22);
    assert_eq!(plain.mods, Modifiers::empty());
    assert_ne!(h.id(), plain.id());
    let meta = HotKey::new(Some(Modifiers::from_flags(META)), Code::KeyD);
    assert_ne!(meta.id(), h.id());
}

#[test]
fn meta_is_written_as_super() {
    let meta = HotKey::new(Some(Modifiers::from_flags(META | SHIFT)), Code::KeyD);
    let sup = HotKey::new(Some(Modifiers::from_flags(SUPER | SHIFT)), Code::KeyD);
    assert_eq!(meta, sup);
    assert_eq!(meta.mods.bits(), (SUPER | SHIFT) as u32);
    assert_eq!(meta.id(), sup.id());
}

#[test]
fn modifier_set_operations() {
    let mut m = Modifiers::from_flags(SHIFT | CONTROL);
    assert!(m.contains(Modifiers::from_flags(SHIFT)));
    assert!(!m.contains(Modifiers::from_flags(SHIFT | META)));
    assert!(m.intersects(Modifiers::from_flags(SHIFT | META)));
    m.remove(Modifiers::from_flags(SHIFT));
    assert_eq!(m.bits(), CONTROL as u32);
    m.insert(Modifiers::from_flags(META));
    assert_eq!(m.bits(), (CONTROL | META) as u32);
    assert_eq!(Modifiers::from_bits_truncate(0x1_0001).bits(), SHIFT as u32);
    assert!(Modifiers::empty().is_empty());
    assert_eq!(Modifiers::from_flags(SHIFT).union(Modifiers::from_flags(CONTROL)).bits(), 3);
}

#[test]
fn side_specific_modifiers_must_be_down() {
    let bits = (SHIFT_LEFT | SUPER_RIGHT) as u32;
    assert!(modifiers_match(bits, &keys(true, true)));
    assert!(!modifiers_match(bits, &keys(false, true)));
    assert!(!modifiers_match(bits, &keys(true, false)));
    assert!(modifiers_match(SHIFT as u32, &keys(false, false)));
}

#[test]
fn handler_reports_press_and_release() {
    let h = HotKey::new(Some(Modifiers::from_flags(SHIFT_LEFT)), Code::KeyA);
    let id = h.id();
    assert_eq!(
        hotkey_handler(Some(id), EVENT_HOTKEY_PRESSED, &keys(true, false)),
        Some(GlobalHotKeyEvent { id, state: HotKeyState::Pressed })
    );
    assert_eq!(
        hotkey_handler(Some(id), EVENT_HOTKEY_RELEASED, &keys(true, false)),
        Some(GlobalHotKeyEvent { id, state: HotKeyState::Released })
    );
    assert_eq!(hotkey_handler(Some(id), EVENT_HOTKEY_PRESSED, &keys(false, false)), None);
    assert_eq!(hotkey_handler(Some(id), 7, &keys(true, false)), None);
    assert_eq!(hotkey_handler(None, EVENT_HOTKEY_PRESSED, &keys(true, true)), None);
}

#[test]
fn fn_modifier_needs_fn_key_down() {
    let h = HotKey::new(Some(Modifiers::from_flags(FN)), Code::KeyA);
    let id = h.id();
    assert_eq!(hotkey_handler(Some(id), EVENT_HOTKEY_PRESSED, &keys(false, false)), None);
    let mut with_fn = keys(false, false);
    with_fn.fn_key = true;
    assert_eq!(
        hotkey_handler(Some(id), EVENT_HOTKEY_PRESSED, &with_fn),
        Some(GlobalHotKeyEvent { id, state: HotKeyState::Pressed })
    );
    assert!(!modifiers_match(FN as u32, &keys(true, true)));
    assert!(modifiers_match(FN as u32, &with_fn));
}

#[test]
fn side_neutral_hotkey_reported_whatever_the_keys() {
    let h = HotKey::new(Some(Modifiers::from_flags(SHIFT | CONTROL)), Code::KeyC);
    let id = h.id();
    assert_eq!(
        hotkey_handler(Some(id), EVENT_HOTKEY_PRESSED, &keys(false, false)),
        Some(GlobalHotKeyEvent { id, state: HotKeyState::Pressed })
    );
}
