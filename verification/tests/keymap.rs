use global_hotkey::carbon::{carbon_modifiers, hotkey_signature, HOTKEY_SIGNATURE};
use global_hotkey::code::CODE_COUNT;
use global_hotkey::keymap::{fallback_scancode, modifier_key_for_keycode, KVK_CONTROL, KVK_RIGHT_COMMAND};
use global_hotkey::modifiers::{ALT_LEFT, CONTROL, CONTROL_RIGHT, META, SHIFT, SHIFT_LEFT, SUPER};
use global_hotkey::{key_to_scancode, requires_event_tap, Code, Modifiers};

#[test]
fn scancodes_of_letters_digits_and_specials() {
    assert_eq!(key_to_scancode(Code::KeyA), Some(0x00));
    assert_eq!(key_to_scancode(Code::KeyB), Some(0x0b));
    assert_eq!(key_to_scancode(Code::Digit5), Some(0x17));
    assert_eq!(key_to_scancode(Code::Space), Some(0x31));
    assert_eq!(key_to_scancode(Code::CapsLock), Some(0x39));
    assert_eq!(key_to_scancode(Code::PrintScreen), Some(0x46));
    assert_eq!(key_to_scancode(Code::F1), Some(0x7a));
    assert_eq!(key_to_scancode(Code::ArrowUp), Some(0x7e));
    assert_eq!(key_to_scancode(Code::AudioVolumeUp), Some(0x48));
}

#[test]
fn keys_without_scancode() {
    assert_eq!(key_to_scancode(Code::ControlLeft), None);
    assert_eq!(key_to_scancode(Code::MediaPlayPause), None);
    assert_eq!(key_to_scancode(Code::F21), None);
    assert_eq!(key_to_scancode(Code::Fn), None);
}

#[test]
fn scancodes_are_distinct() {
    let mut seen: Vec<u32> = Vec::new();
    for i in 0..CODE_COUNT {
        let code = Code::from_index(i).unwrap();
        if let Some(sc) = key_to_scancode(code) {
            assert!(sc < 0x80);
            assert!(!seen.contains(&sc), "{:?} shares its scancode", code);
            assert!(!requires_event_tap(code));
            seen.push(sc);
        }
    }
    assert_eq!(seen.len(), 105);
}

#[test]
fn event_tap_keys() {
    assert!(requires_event_tap(Code::MediaPlayPause));
    assert!(requires_event_tap(Code::MediaRewind));
    assert!(requires_event_tap(Code::ShiftLeft));
    assert!(requires_event_tap(Code::MetaRight));
    assert!(!requires_event_tap(Code::KeyA));
    assert!(requires_event_tap(Code::Fn));
    assert!(!requires_event_tap(Code::MediaStop));
}

#[test]
fn fallback_scancodes_match_flags_changed_keycodes() {
    assert_eq!(fallback_scancode(Code::ControlLeft), Some(KVK_CONTROL as u32));
    assert_eq!(fallback_scancode(Code::MetaRight), Some(KVK_RIGHT_COMMAND as u32));
    assert_eq!(fallback_scancode(Code::MediaPlayPause), None);
    for keycode in 0u16..0x80 {
        if let Some(code) = modifier_key_for_keycode(keycode).filter(|c| *c != Code::Fn) {
            assert_eq!(fallback_scancode(code), Some(keycode as u32));
        }
    }
    assert_eq!(modifier_key_for_keycode(0x3B), Some(Code::ControlLeft));
    assert_eq!(modifier_key_for_keycode(0x36), Some(Code::MetaRight));
    assert_eq!(modifier_key_for_keycode(0x39), None);
    assert_eq!(modifier_key_for_keycode(0x3F), Some(Code::Fn));
    assert_eq!(fallback_scancode(Code::Fn), None);
}

#[test]
fn signature_is_htrs() {
    assert_eq!(hotkey_signature(), 1752461939);
    assert_eq!(hotkey_signature(), HOTKEY_SIGNATURE);
}

#[test]
fn carbon_modifier_masks() {
    assert_eq!(carbon_modifiers(Modifiers::empty()), 0);
    assert_eq!(carbon_modifiers(Modifiers::from_flags(SHIFT)), 512);
    assert_eq!(carbon_modifiers(Modifiers::from_flags(SHIFT_LEFT)), 512);
    assert_eq!(carbon_modifiers(Modifiers::from_flags(SUPER)), 256);
    assert_eq!(carbon_modifiers(Modifiers::from_flags(META)), 256);
    assert_eq!(carbon_modifiers(Modifiers::from_flags(ALT_LEFT)), 2048);
    assert_eq!(carbon_modifiers(Modifiers::from_flags(CONTROL)), 4096);
    assert_eq!(carbon_modifiers(Modifiers::from_flags(SHIFT | CONTROL_RIGHT)), 4608);
    assert_eq!(carbon_modifiers(Modifiers::from_bits_truncate(0xffff_ffff)), 6912);
}

#[test]
fn code_names_and_numbers() {
    assert_eq!(Code::KeyA.name(), "KeyA");
    assert_eq!(Code::MediaPlayPause.name(), "MediaPlayPause");
    assert_eq!(Code::KeyA.index(), 19);
    assert_eq!(Code::Backquote.index(), 0);
    assert_eq!(Code::ZoomToggle.index(), CODE_COUNT - 1);
    assert_eq!(Code::from_index(CODE_COUNT), None);
    for i in 0..CODE_COUNT {
        assert_eq!(Code::from_index(i).unwrap().index(), i);
    }
}
