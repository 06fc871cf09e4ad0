//! Which keys the Carbon hotkey API can register, under which virtual key
//! code, and which keys need the event tap instead.
//!
//! The virtual key codes are those of the Carbon `Events.h` header
//! (`kVK_ANSI_A` = 0x00, ...).

use vstd::prelude::*;
use crate::code::{Code, CODE_COUNT};

verus! {

/// `kVK_Command`: the left Command key.
pub const KVK_COMMAND: u16 = 0x37;
/// `kVK_Shift`: the left Shift key.
pub const KVK_SHIFT: u16 = 0x38;
/// `kVK_CapsLock`.
pub const KVK_CAPS_LOCK: u16 = 0x39;
/// `kVK_Option`: the left Option key.
pub const KVK_OPTION: u16 = 0x3A;
/// `kVK_Control`: the left Control key.
pub const KVK_CONTROL: u16 = 0x3B;
/// `kVK_RightCommand`.
pub const KVK_RIGHT_COMMAND: u16 = 0x36;
/// `kVK_RightShift`.
pub const KVK_RIGHT_SHIFT: u16 = 0x3C;
/// `kVK_RightOption`.
pub const KVK_RIGHT_OPTION: u16 = 0x3D;
/// `kVK_RightControl`.
pub const KVK_RIGHT_CONTROL: u16 = 0x3E;
/// `kVK_Function`: the Mac `fn` key.
pub const KVK_FUNCTION: u16 = 0x3F;

/// The virtual key code under which a key is registered with Carbon, for the
/// keys that have one.
pub open spec fn spec_key_to_scancode(code: Code) -> Option<u32> {
    match code {
        Code::KeyA => Some(0x00),
        Code::KeyS => Some(0x01),
        Code::KeyD => Some(0x02),
        Code::KeyF => Some(0x03),
        Code::KeyH => Some(0x04),
        Code::KeyG => Some(0x05),
        Code::KeyZ => Some(0x06),
        Code::KeyX => Some(0x07),
        Code::KeyC => Some(0x08),
        Code::KeyV => Some(0x09),
        Code::KeyB => Some(0x0b),
        Code::KeyQ => Some(0x0c),
        Code::KeyW => Some(0x0d),
        Code::KeyE => Some(0x0e),
        Code::KeyR => Some(0x0f),
        Code::KeyY => Some(0x10),
        Code::KeyT => Some(0x11),
        Code::Digit1 => Some(0x12),
        Code::Digit2 => Some(0x13),
        Code::Digit3 => Some(0x14),
        Code::Digit4 => Some(0x15),
        Code::Digit6 => Some(0x16),
        Code::Digit5 => Some(0x17),
        Code::Equal => Some(0x18),
        Code::Digit9 => Some(0x19),
        Code::Digit7 => Some(0x1a),
        Code::Minus => Some(0x1b),
        Code::Digit8 => Some(0x1c),
        Code::Digit0 => Some(0x1d),
        Code::BracketRight => Some(0x1e),
        Code::KeyO => Some(0x1f),
        Code::KeyU => Some(0x20),
        Code::BracketLeft => Some(0x21),
        Code::KeyI => Some(0x22),
        Code::KeyP => Some(0x23),
        Code::Enter => Some(0x24),
        Code::KeyL => Some(0x25),
        Code::KeyJ => Some(0x26),
        Code::Quote => Some(0x27),
        Code::KeyK => Some(0x28),
        Code::Semicolon => Some(0x29),
        Code::Backslash => Some(0x2a),
        Code::Comma => Some(0x2b),
        Code::Slash => Some(0x2c),
        Code::KeyN => Some(0x2d),
        Code::KeyM => Some(0x2e),
        Code::Period => Some(0x2f),
        Code::Tab => Some(0x30),
        Code::Space => Some(0x31),
        Code::Backquote => Some(0x32),
        Code::Backspace => Some(0x33),
        Code::Escape => Some(0x35),
        Code::F17 => Some(0x40),
        Code::NumpadDecimal => Some(0x41),
        Code::NumpadMultiply => Some(0x43),
        Code::NumpadAdd => Some(0x45),
        Code::NumLock => Some(0x47),
        Code::AudioVolumeUp => Some(0x48),
        Code::AudioVolumeDown => Some(0x49),
        Code::AudioVolumeMute => Some(0x4a),
        Code::NumpadDivide => Some(0x4b),
        Code::NumpadEnter => Some(0x4c),
        Code::NumpadSubtract => Some(0x4e),
        Code::F18 => Some(0x4f),
        Code::F19 => Some(0x50),
        Code::NumpadEqual => Some(0x51),
        Code::Numpad0 => Some(0x52),
        Code::Numpad1 => Some(0x53),
        Code::Numpad2 => Some(0x54),
        Code::Numpad3 => Some(0x55),
        Code::Numpad4 => Some(0x56),
        Code::Numpad5 => Some(0x57),
        Code::Numpad6 => Some(0x58),
        Code::Numpad7 => Some(0x59),
        Code::F20 => Some(0x5a),
        Code::Numpad8 => Some(0x5b),
        Code::Numpad9 => Some(0x5c),
        Code::F5 => Some(0x60),
        Code::F6 => Some(0x61),
        Code::F7 => Some(0x62),
        Code::F3 => Some(0x63),
        Code::F8 => Some(0x64),
        Code::F9 => Some(0x65),
        Code::F11 => Some(0x67),
        Code::F13 => Some(0x69),
        Code::F16 => Some(0x6a),
        Code::F14 => Some(0x6b),
        Code::F10 => Some(0x6d),
        Code::F12 => Some(0x6f),
        Code::F15 => Some(0x71),
        Code::Insert => Some(0x72),
        Code::Home => Some(0x73),
        Code::PageUp => Some(0x74),
        Code::Delete => Some(0x75),
        Code::F4 => Some(0x76),
        Code::End => Some(0x77),
        Code::F2 => Some(0x78),
        Code::PageDown => Some(0x79),
        Code::F1 => Some(0x7a),
        Code::ArrowLeft => Some(0x7b),
        Code::ArrowRight => Some(0x7c),
        Code::ArrowDown => Some(0x7d),
        Code::ArrowUp => Some(0x7e),
        Code::CapsLock => Some(KVK_CAPS_LOCK as u32),
        Code::PrintScreen => Some(0x46),
        _ => None,
    }
}

/// The key that `spec_key_to_scancode` gives the virtual key code `scan_code`, if any.
pub open spec fn spec_key_for_scancode(scan_code: u32) -> Option<Code> {
    match scan_code {
        0x00 => Some(Code::KeyA),
        0x01 => Some(Code::KeyS),
        0x02 => Some(Code::KeyD),
        0x03 => Some(Code::KeyF),
        0x04 => Some(Code::KeyH),
        0x05 => Some(Code::KeyG),
        0x06 => Some(Code::KeyZ),
        0x07 => Some(Code::KeyX),
        0x08 => Some(Code::KeyC),
        0x09 => Some(Code::KeyV),
        0x0b => Some(Code::KeyB),
        0x0c => Some(Code::KeyQ),
        0x0d => Some(Code::KeyW),
        0x0e => Some(Code::KeyE),
        0x0f => Some(Code::KeyR),
        0x10 => Some(Code::KeyY),
        0x11 => Some(Code::KeyT),
        0x12 => Some(Code::Digit1),
        0x13 => Some(Code::Digit2),
        0x14 => Some(Code::Digit3),
        0x15 => Some(Code::Digit4),
        0x16 => Some(Code::Digit6),
        0x17 => Some(Code::Digit5),
        0x18 => Some(Code::Equal),
        0x19 => Some(Code::Digit9),
        0x1a => Some(Code::Digit7),
        0x1b => Some(Code::Minus),
        0x1c => Some(Code::Digit8),
        0x1d => Some(Code::Digit0),
        0x1e => Some(Code::BracketRight),
        0x1f => Some(Code::KeyO),
        0x20 => Some(Code::KeyU),
        0x21 => Some(Code::BracketLeft),
        0x22 => Some(Code::KeyI),
        0x23 => Some(Code::KeyP),
        0x24 => Some(Code::Enter),
        0x25 => Some(Code::KeyL),
        0x26 => Some(Code::KeyJ),
        0x27 => Some(Code::Quote),
        0x28 => Some(Code::KeyK),
        0x29 => Some(Code::Semicolon),
        0x2a => Some(Code::Backslash),
        0x2b => Some(Code::Comma),
        0x2c => Some(Code::Slash),
        0x2d => Some(Code::KeyN),
        0x2e => Some(Code::KeyM),
        0x2f => Some(Code::Period),
        0x30 => Some(Code::Tab),
        0x31 => Some(Code::Space),
        0x32 => Some(Code::Backquote),
        0x33 => Some(Code::Backspace),
        0x35 => Some(Code::Escape),
        0x40 => Some(Code::F17),
        0x41 => Some(Code::NumpadDecimal),
        0x43 => Some(Code::NumpadMultiply),
        0x45 => Some(Code::NumpadAdd),
        0x47 => Some(Code::NumLock),
        0x48 => Some(Code::AudioVolumeUp),
        0x49 => Some(Code::AudioVolumeDown),
        0x4a => Some(Code::AudioVolumeMute),
        0x4b => Some(Code::NumpadDivide),
        0x4c => Some(Code::NumpadEnter),
        0x4e => Some(Code::NumpadSubtract),
        0x4f => Some(Code::F18),
        0x50 => Some(Code::F19),
        0x51 => Some(Code::NumpadEqual),
        0x52 => Some(Code::Numpad0),
        0x53 => Some(Code::Numpad1),
        0x54 => Some(Code::Numpad2),
        0x55 => Some(Code::Numpad3),
        0x56 => Some(Code::Numpad4),
        0x57 => Some(Code::Numpad5),
        0x58 => Some(Code::Numpad6),
        0x59 => Some(Code::Numpad7),
        0x5a => Some(Code::F20),
        0x5b => Some(Code::Numpad8),
        0x5c => Some(Code::Numpad9),
        0x60 => Some(Code::F5),
        0x61 => Some(Code::F6),
        0x62 => Some(Code::F7),
        0x63 => Some(Code::F3),
        0x64 => Some(Code::F8),
        0x65 => Some(Code::F9),
        0x67 => Some(Code::F11),
        0x69 => Some(Code::F13),
        0x6a => Some(Code::F16),
        0x6b => Some(Code::F14),
        0x6d => Some(Code::F10),
        0x6f => Some(Code::F12),
        0x71 => Some(Code::F15),
        0x72 => Some(Code::Insert),
        0x73 => Some(Code::Home),
        0x74 => Some(Code::PageUp),
        0x75 => Some(Code::Delete),
        0x76 => Some(Code::F4),
        0x77 => Some(Code::End),
        0x78 => Some(Code::F2),
        0x79 => Some(Code::PageDown),
        0x7a => Some(Code::F1),
        0x7b => Some(Code::ArrowLeft),
        0x7c => Some(Code::ArrowRight),
        0x7d => Some(Code::ArrowDown),
        0x7e => Some(Code::ArrowUp),
        0x39 => Some(Code::CapsLock),
        0x46 => Some(Code::PrintScreen),
        _ => None,
    }
}

/// The Carbon virtual key code of `code`, or `None` where Carbon cannot
/// register the key.
pub fn key_to_scancode(code: Code) -> (r: Option<u32>)
    ensures
        r == spec_key_to_scancode(code),
{
    match code {
        Code::KeyA => Some(0x00),
        Code::KeyS => Some(0x01),
        Code::KeyD => Some(0x02),
        Code::KeyF => Some(0x03),
        Code::KeyH => Some(0x04),
        Code::KeyG => Some(0x05),
        Code::KeyZ => Some(0x06),
        Code::KeyX => Some(0x07),
        Code::KeyC => Some(0x08),
        Code::KeyV => Some(0x09),
        Code::KeyB => Some(0x0b),
        Code::KeyQ => Some(0x0c),
        Code::KeyW => Some(0x0d),
        Code::KeyE => Some(0x0e),
        Code::KeyR => Some(0x0f),
        Code::KeyY => Some(0x10),
        Code::KeyT => Some(0x11),
        Code::Digit1 => Some(0x12),
        Code::Digit2 => Some(0x13),
        Code::Digit3 => Some(0x14),
        Code::Digit4 => Some(0x15),
        Code::Digit6 => Some(0x16),
        Code::Digit5 => Some(0x17),
        Code::Equal => Some(0x18),
        Code::Digit9 => Some(0x19),
        Code::Digit7 => Some(0x1a),
        Code::Minus => Some(0x1b),
        Code::Digit8 => Some(0x1c),
        Code::Digit0 => Some(0x1d),
        Code::BracketRight => Some(0x1e),
        Code::KeyO => Some(0x1f),
        Code::KeyU => Some(0x20),
        Code::BracketLeft => Some(0x21),
        Code::KeyI => Some(0x22),
        Code::KeyP => Some(0x23),
        Code::Enter => Some(0x24),
        Code::KeyL => Some(0x25),
        Code::KeyJ => Some(0x26),
        Code::Quote => Some(0x27),
        Code::KeyK => Some(0x28),
        Code::Semicolon => Some(0x29),
        Code::Backslash => Some(0x2a),
        Code::Comma => Some(0x2b),
        Code::Slash => Some(0x2c),
        Code::KeyN => Some(0x2d),
        Code::KeyM => Some(0x2e),
        Code::Period => Some(0x2f),
        Code::Tab => Some(0x30),
        Code::Space => Some(0x31),
        Code::Backquote => Some(0x32),
        Code::Backspace => Some(0x33),
        Code::Escape => Some(0x35),
        Code::F17 => Some(0x40),
        Code::NumpadDecimal => Some(0x41),
        Code::NumpadMultiply => Some(0x43),
        Code::NumpadAdd => Some(0x45),
        Code::NumLock => Some(0x47),
        Code::AudioVolumeUp => Some(0x48),
        Code::AudioVolumeDown => Some(0x49),
        Code::AudioVolumeMute => Some(0x4a),
        Code::NumpadDivide => Some(0x4b),
        Code::NumpadEnter => Some(0x4c),
        Code::NumpadSubtract => Some(0x4e),
        Code::F18 => Some(0x4f),
        Code::F19 => Some(0x50),
        Code::NumpadEqual => Some(0x51),
        Code::Numpad0 => Some(0x52),
        Code::Numpad1 => Some(0x53),
        Code::Numpad2 => Some(0x54),
        Code::Numpad3 => Some(0x55),
        Code::Numpad4 => Some(0x56),
        Code::Numpad5 => Some(0x57),
        Code::Numpad6 => Some(0x58),
        Code::Numpad7 => Some(0x59),
        Code::F20 => Some(0x5a),
        Code::Numpad8 => Some(0x5b),
        Code::Numpad9 => Some(0x5c),
        Code::F5 => Some(0x60),
        Code::F6 => Some(0x61),
        Code::F7 => Some(0x62),
        Code::F3 => Some(0x63),
        Code::F8 => Some(0x64),
        Code::F9 => Some(0x65),
        Code::F11 => Some(0x67),
        Code::F13 => Some(0x69),
        Code::F16 => Some(0x6a),
        Code::F14 => Some(0x6b),
        Code::F10 => Some(0x6d),
        Code::F12 => Some(0x6f),
        Code::F15 => Some(0x71),
        Code::Insert => Some(0x72),
        Code::Home => Some(0x73),
        Code::PageUp => Some(0x74),
        Code::Delete => Some(0x75),
        Code::F4 => Some(0x76),
        Code::End => Some(0x77),
        Code::F2 => Some(0x78),
        Code::PageDown => Some(0x79),
        Code::F1 => Some(0x7a),
        Code::ArrowLeft => Some(0x7b),
        Code::ArrowRight => Some(0x7c),
        Code::ArrowDown => Some(0x7d),
        Code::ArrowUp => Some(0x7e),
        Code::CapsLock => Some(KVK_CAPS_LOCK as u32),
        Code::PrintScreen => Some(0x46),
        _ => None,
    }
}

/// The keys that Carbon cannot register and that are watched through the
/// event tap: the media keys, the side-specific modifier keys and the Mac
/// `fn` key.
pub open spec fn spec_requires_event_tap(code: Code) -> bool {
    match code {
        Code::MediaPlayPause => true,
        Code::MediaTrackNext => true,
        Code::MediaTrackPrevious => true,
        Code::MediaFastForward => true,
        Code::MediaRewind => true,
        Code::ControlLeft => true,
        Code::ControlRight => true,
        Code::ShiftLeft => true,
        Code::ShiftRight => true,
        Code::AltLeft => true,
        Code::AltRight => true,
        Code::MetaLeft => true,
        Code::MetaRight => true,
        Code::Fn => true,
        _ => false,
    }
}

/// Whether `code` is watched through the event tap rather than registered with Carbon.
pub fn requires_event_tap(code: Code) -> (r: bool)
    ensures
        r == spec_requires_event_tap(code),
{
    match code {
        Code::MediaPlayPause => true,
        Code::MediaTrackNext => true,
        Code::MediaTrackPrevious => true,
        Code::MediaFastForward => true,
        Code::MediaRewind => true,
        Code::ControlLeft => true,
        Code::ControlRight => true,
        Code::ShiftLeft => true,
        Code::ShiftRight => true,
        Code::AltLeft => true,
        Code::AltRight => true,
        Code::MetaLeft => true,
        Code::MetaRight => true,
        Code::Fn => true,
        _ => false,
    }
}

/// The virtual key code with which a modifier key is registered with Carbon
/// when the event tap cannot be had: the key's own code.
pub open spec fn spec_fallback_scancode(code: Code) -> Option<u32> {
    match code {
        Code::ControlLeft => Some(KVK_CONTROL as u32),
        Code::ControlRight => Some(KVK_RIGHT_CONTROL as u32),
        Code::ShiftLeft => Some(KVK_SHIFT as u32),
        Code::ShiftRight => Some(KVK_RIGHT_SHIFT as u32),
        Code::AltLeft => Some(KVK_OPTION as u32),
        Code::AltRight => Some(KVK_RIGHT_OPTION as u32),
        Code::MetaLeft => Some(KVK_COMMAND as u32),
        Code::MetaRight => Some(KVK_RIGHT_COMMAND as u32),
        _ => None,
    }
}

/// The Carbon virtual key code of a modifier key, for registering it with
/// Carbon when the event tap cannot be had.
pub fn fallback_scancode(code: Code) -> (r: Option<u32>)
    ensures
        r == spec_fallback_scancode(code),
{
    match code {
        Code::ControlLeft => Some(KVK_CONTROL as u32),
        Code::ControlRight => Some(KVK_RIGHT_CONTROL as u32),
        Code::ShiftLeft => Some(KVK_SHIFT as u32),
        Code::ShiftRight => Some(KVK_RIGHT_SHIFT as u32),
        Code::AltLeft => Some(KVK_OPTION as u32),
        Code::AltRight => Some(KVK_RIGHT_OPTION as u32),
        Code::MetaLeft => Some(KVK_COMMAND as u32),
        Code::MetaRight => Some(KVK_RIGHT_COMMAND as u32),
        _ => None,
    }
}

/// The modifier key whose state a `FlagsChanged` event with virtual key code
/// `keycode` reports, if any.
pub open spec fn spec_modifier_key_for_keycode(keycode: u16) -> Option<Code> {
    match keycode {
        0x3B => Some(Code::ControlLeft),
        0x3E => Some(Code::ControlRight),
        0x38 => Some(Code::ShiftLeft),
        0x3C => Some(Code::ShiftRight),
        0x3A => Some(Code::AltLeft),
        0x3D => Some(Code::AltRight),
        0x37 => Some(Code::MetaLeft),
        0x36 => Some(Code::MetaRight),
        0x3F => Some(Code::Fn),
        _ => None,
    }
}

/// The modifier key whose state a `FlagsChanged` event with virtual key code
/// `keycode` reports, or `None` where the event is about another key.
pub fn modifier_key_for_keycode(keycode: u16) -> (r: Option<Code>)
    ensures
        r == spec_modifier_key_for_keycode(keycode),
{
    match keycode {
        0x3B => Some(Code::ControlLeft),
        0x3E => Some(Code::ControlRight),
        0x38 => Some(Code::ShiftLeft),
        0x3C => Some(Code::ShiftRight),
        0x3A => Some(Code::AltLeft),
        0x3D => Some(Code::AltRight),
        0x37 => Some(Code::MetaLeft),
        0x36 => Some(Code::MetaRight),
        0x3F => Some(Code::Fn),
        _ => None,
    }
}

/// A virtual key code leads back to the one key that has it.
pub proof fn lemma_scancode_round_trip(code: Code)
    ensures
        spec_key_to_scancode(code) matches Some(sc) ==> spec_key_for_scancode(sc) == Some(code),
{
}

/// Distinct keys are registered under distinct virtual key codes.
pub proof fn lemma_scancode_injective(a: Code, b: Code)
    requires
        spec_key_to_scancode(a) is Some,
        spec_key_to_scancode(a) == spec_key_to_scancode(b),
    ensures
        a == b,
{
    lemma_scancode_round_trip(a);
    lemma_scancode_round_trip(b);
}

/// Every virtual key code that Carbon is handed is below 0x80.
pub proof fn lemma_scancode_range(code: Code)
    ensures
        spec_key_to_scancode(code) matches Some(sc) ==> sc < 0x80,
{
}

/// No key is both registered with Carbon and watched through the event tap,
/// so the order in which registration asks the two does not matter.
pub proof fn lemma_scancode_excludes_event_tap(code: Code)
    ensures
        spec_key_to_scancode(code) is Some ==> !spec_requires_event_tap(code),
{
}

/// Only keys watched through the event tap, and that Carbon does not register
/// otherwise, have a fallback virtual key code.
pub proof fn lemma_fallback_only_for_event_tap(code: Code)
    ensures
        spec_fallback_scancode(code) is Some ==> spec_requires_event_tap(code) && spec_key_to_scancode(code) is None,
{
}

/// The fallback code of a modifier key is the code that `FlagsChanged`
/// events report for that key, and the other way round; the `fn` key, which
/// Carbon cannot register, is the one modifier key without a fallback.
pub proof fn lemma_fallback_matches_flags_changed(code: Code, keycode: u16)
    ensures
        spec_fallback_scancode(code) == Some(keycode as u32) ==> spec_modifier_key_for_keycode(keycode) == Some(code),
        spec_modifier_key_for_keycode(keycode) == Some(code) && code != Code::Fn ==> spec_fallback_scancode(code) == Some(keycode as u32),
        spec_fallback_scancode(Code::Fn) is None,
        spec_modifier_key_for_keycode(KVK_FUNCTION) == Some(Code::Fn),
{
}

/// How many of the first `n` keys (by number) Carbon can register.
pub open spec fn count_carbon_keys(n: nat) -> nat
    decreases n,
{
    if n == 0 {
        0
    } else {
        count_carbon_keys((n - 1) as nat) + match Code::spec_from_index((n - 1) as u16) {
            Some(c) => if spec_key_to_scancode(c) is Some { 1nat } else { 0nat },
            None => 0nat,
        }
    }
}

/// Keys 0 to 19: 17 of them have a Carbon virtual key code.
proof fn lemma_carbon_key_count_0()
    ensures
        count_carbon_keys(20) == count_carbon_keys(0) + 17,
{
    assert(count_carbon_keys(1) == count_carbon_keys(0) + 1);
    assert(count_carbon_keys(2) == count_carbon_keys(0) + 2);
    assert(count_carbon_keys(3) == count_carbon_keys(0) + 3);
    assert(count_carbon_keys(4) == count_carbon_keys(0) + 4);
    assert(count_carbon_keys(5) == count_carbon_keys(0) + 5);
    assert(count_carbon_keys(6) == count_carbon_keys(0) + 6);
    assert(count_carbon_keys(7) == count_carbon_keys(0) + 7);
    assert(count_carbon_keys(8) == count_carbon_keys(0) + 8);
    assert(count_carbon_keys(9) == count_carbon_keys(0) + 9);
    assert(count_carbon_keys(10) == count_carbon_keys(0) + 10);
    assert(count_carbon_keys(11) == count_carbon_keys(0) + 11);
    assert(count_carbon_keys(12) == count_carbon_keys(0) + 12);
    assert(count_carbon_keys(13) == count_carbon_keys(0) + 13);
    assert(count_carbon_keys(14) == count_carbon_keys(0) + 14);
    assert(count_carbon_keys(15) == count_carbon_keys(0) + 15);
    assert(count_carbon_keys(16) == count_carbon_keys(0) + 16);
    assert(count_carbon_keys(17) == count_carbon_keys(0) + 16);
    assert(count_carbon_keys(18) == count_carbon_keys(0) + 16);
    assert(count_carbon_keys(19) == count_carbon_keys(0) + 16);
    assert(count_carbon_keys(20) == count_carbon_keys(0) + 17);
}

/// Keys 20 to 39: 20 of them have a Carbon virtual key code.
proof fn lemma_carbon_key_count_1()
    ensures
        count_carbon_keys(40) == count_carbon_keys(20) + 20,
{
    assert(count_carbon_keys(21) == count_carbon_keys(20) + 1);
    assert(count_carbon_keys(22) == count_carbon_keys(20) + 2);
    assert(count_carbon_keys(23) == count_carbon_keys(20) + 3);
    assert(count_carbon_keys(24) == count_carbon_keys(20) + 4);
    assert(count_carbon_keys(25) == count_carbon_keys(20) + 5);
    assert(count_carbon_keys(26) == count_carbon_keys(20) + 6);
    assert(count_carbon_keys(27) == count_carbon_keys(20) + 7);
    assert(count_carbon_keys(28) == count_carbon_keys(20) + 8);
    assert(count_carbon_keys(29) == count_carbon_keys(20) + 9);
    assert(count_carbon_keys(30) == count_carbon_keys(20) + 10);
    assert(count_carbon_keys(31) == count_carbon_keys(20) + 11);
    assert(count_carbon_keys(32) == count_carbon_keys(20) + 12);
    assert(count_carbon_keys(33) == count_carbon_keys(20) + 13);
    assert(count_carbon_keys(34) == count_carbon_keys(20) + 14);
    assert(count_carbon_keys(35) == count_carbon_keys(20) + 15);
    assert(count_carbon_keys(36) == count_carbon_keys(20) + 16);
    assert(count_carbon_keys(37) == count_carbon_keys(20) + 17);
    assert(count_carbon_keys(38) == count_carbon_keys(20) + 18);
    assert(count_carbon_keys(39) == count_carbon_keys(20) + 19);
    assert(count_carbon_keys(40) == count_carbon_keys(20) + 20);
}

/// Keys 40 to 59: 13 of them have a Carbon virtual key code.
proof fn lemma_carbon_key_count_2()
    ensures
        count_carbon_keys(60) == count_carbon_keys(40) + 13,
{
    assert(count_carbon_keys(41) == count_carbon_keys(40) + 1);
    assert(count_carbon_keys(42) == count_carbon_keys(40) + 2);
    assert(count_carbon_keys(43) == count_carbon_keys(40) + 3);
    assert(count_carbon_keys(44) == count_carbon_keys(40) + 4);
    assert(count_carbon_keys(45) == count_carbon_keys(40) + 5);
    assert(count_carbon_keys(46) == count_carbon_keys(40) + 6);
    assert(count_carbon_keys(47) == count_carbon_keys(40) + 7);
    assert(count_carbon_keys(48) == count_carbon_keys(40) + 8);
    assert(count_carbon_keys(49) == count_carbon_keys(40) + 9);
    assert(count_carbon_keys(50) == count_carbon_keys(40) + 10);
    assert(count_carbon_keys(51) == count_carbon_keys(40) + 10);
    assert(count_carbon_keys(52) == count_carbon_keys(40) + 10);
    assert(count_carbon_keys(53) == count_carbon_keys(40) + 11);
    assert(count_carbon_keys(54) == count_carbon_keys(40) + 12);
    assert(count_carbon_keys(55) == count_carbon_keys(40) + 12);
    assert(count_carbon_keys(56) == count_carbon_keys(40) + 12);
    assert(count_carbon_keys(57) == count_carbon_keys(40) + 12);
    assert(count_carbon_keys(58) == count_carbon_keys(40) + 13);
    assert(count_carbon_keys(59) == count_carbon_keys(40) + 13);
    assert(count_carbon_keys(60) == count_carbon_keys(40) + 13);
}

/// Keys 60 to 79: 9 of them have a Carbon virtual key code.
proof fn lemma_carbon_key_count_3()
    ensures
        count_carbon_keys(80) == count_carbon_keys(60) + 9,
{
    assert(count_carbon_keys(61) == count_carbon_keys(60) + 0);
    assert(count_carbon_keys(62) == count_carbon_keys(60) + 0);
    assert(count_carbon_keys(63) == count_carbon_keys(60) + 1);
    assert(count_carbon_keys(64) == count_carbon_keys(60) + 2);
    assert(count_carbon_keys(65) == count_carbon_keys(60) + 2);
    assert(count_carbon_keys(66) == count_carbon_keys(60) + 2);
    assert(count_carbon_keys(67) == count_carbon_keys(60) + 2);
    assert(count_carbon_keys(68) == count_carbon_keys(60) + 2);
    assert(count_carbon_keys(69) == count_carbon_keys(60) + 2);
    assert(count_carbon_keys(70) == count_carbon_keys(60) + 2);
    assert(count_carbon_keys(71) == count_carbon_keys(60) + 2);
    assert(count_carbon_keys(72) == count_carbon_keys(60) + 2);
    assert(count_carbon_keys(73) == count_carbon_keys(60) + 3);
    assert(count_carbon_keys(74) == count_carbon_keys(60) + 4);
    assert(count_carbon_keys(75) == count_carbon_keys(60) + 4);
    assert(count_carbon_keys(76) == count_carbon_keys(60) + 5);
    assert(count_carbon_keys(77) == count_carbon_keys(60) + 6);
    assert(count_carbon_keys(78) == count_carbon_keys(60) + 7);
    assert(count_carbon_keys(79) == count_carbon_keys(60) + 8);
    assert(count_carbon_keys(80) == count_carbon_keys(60) + 9);
}

/// Keys 80 to 99: 16 of them have a Carbon virtual key code.
proof fn lemma_carbon_key_count_4()
    ensures
        count_carbon_keys(100) == count_carbon_keys(80) + 16,
{
    assert(count_carbon_keys(81) == count_carbon_keys(80) + 1);
    assert(count_carbon_keys(82) == count_carbon_keys(80) + 2);
    assert(count_carbon_keys(83) == count_carbon_keys(80) + 3);
    assert(count_carbon_keys(84) == count_carbon_keys(80) + 4);
    assert(count_carbon_keys(85) == count_carbon_keys(80) + 5);
    assert(count_carbon_keys(86) == count_carbon_keys(80) + 6);
    assert(count_carbon_keys(87) == count_carbon_keys(80) + 7);
    assert(count_carbon_keys(88) == count_carbon_keys(80) + 8);
    assert(count_carbon_keys(89) == count_carbon_keys(80) + 9);
    assert(count_carbon_keys(90) == count_carbon_keys(80) + 10);
    assert(count_carbon_keys(91) == count_carbon_keys(80) + 11);
    assert(count_carbon_keys(92) == count_carbon_keys(80) + 12);
    assert(count_carbon_keys(93) == count_carbon_keys(80) + 13);
    assert(count_carbon_keys(94) == count_carbon_keys(80) + 14);
    assert(count_carbon_keys(95) == count_carbon_keys(80) + 15);
    assert(count_carbon_keys(96) == count_carbon_keys(80) + 15);
    assert(count_carbon_keys(97) == count_carbon_keys(80) + 15);
    assert(count_carbon_keys(98) == count_carbon_keys(80) + 15);
    assert(count_carbon_keys(99) == count_carbon_keys(80) + 15);
    assert(count_carbon_keys(100) == count_carbon_keys(80) + 16);
}

/// Keys 100 to 119: 7 of them have a Carbon virtual key code.
proof fn lemma_carbon_key_count_5()
    ensures
        count_carbon_keys(120) == count_carbon_keys(100) + 7,
{
    assert(count_carbon_keys(101) == count_carbon_keys(100) + 1);
    assert(count_carbon_keys(102) == count_carbon_keys(100) + 2);
    assert(count_carbon_keys(103) == count_carbon_keys(100) + 3);
    assert(count_carbon_keys(104) == count_carbon_keys(100) + 3);
    assert(count_carbon_keys(105) == count_carbon_keys(100) + 3);
    assert(count_carbon_keys(106) == count_carbon_keys(100) + 3);
    assert(count_carbon_keys(107) == count_carbon_keys(100) + 3);
    assert(count_carbon_keys(108) == count_carbon_keys(100) + 3);
    assert(count_carbon_keys(109) == count_carbon_keys(100) + 3);
    assert(count_carbon_keys(110) == count_carbon_keys(100) + 4);
    assert(count_carbon_keys(111) == count_carbon_keys(100) + 4);
    assert(count_carbon_keys(112) == count_carbon_keys(100) + 4);
    assert(count_carbon_keys(113) == count_carbon_keys(100) + 4);
    assert(count_carbon_keys(114) == count_carbon_keys(100) + 5);
    assert(count_carbon_keys(115) == count_carbon_keys(100) + 6);
    assert(count_carbon_keys(116) == count_carbon_keys(100) + 6);
    assert(count_carbon_keys(117) == count_carbon_keys(100) + 6);
    assert(count_carbon_keys(118) == count_carbon_keys(100) + 7);
    assert(count_carbon_keys(119) == count_carbon_keys(100) + 7);
    assert(count_carbon_keys(120) == count_carbon_keys(100) + 7);
}

/// Keys 120 to 139: 2 of them have a Carbon virtual key code.
proof fn lemma_carbon_key_count_6()
    ensures
        count_carbon_keys(140) == count_carbon_keys(120) + 2,
{
    assert(count_carbon_keys(121) == count_carbon_keys(120) + 0);
    assert(count_carbon_keys(122) == count_carbon_keys(120) + 0);
    assert(count_carbon_keys(123) == count_carbon_keys(120) + 0);
    assert(count_carbon_keys(124) == count_carbon_keys(120) + 0);
    assert(count_carbon_keys(125) == count_carbon_keys(120) + 0);
    assert(count_carbon_keys(126) == count_carbon_keys(120) + 0);
    assert(count_carbon_keys(127) == count_carbon_keys(120) + 0);
    assert(count_carbon_keys(128) == count_carbon_keys(120) + 0);
    assert(count_carbon_keys(129) == count_carbon_keys(120) + 0);
    assert(count_carbon_keys(130) == count_carbon_keys(120) + 0);
    assert(count_carbon_keys(131) == count_carbon_keys(120) + 0);
    assert(count_carbon_keys(132) == count_carbon_keys(120) + 0);
    assert(count_carbon_keys(133) == count_carbon_keys(120) + 0);
    assert(count_carbon_keys(134) == count_carbon_keys(120) + 0);
    assert(count_carbon_keys(135) == count_carbon_keys(120) + 0);
    assert(count_carbon_keys(136) == count_carbon_keys(120) + 0);
    assert(count_carbon_keys(137) == count_carbon_keys(120) + 0);
    assert(count_carbon_keys(138) == count_carbon_keys(120) + 0);
    assert(count_carbon_keys(139) == count_carbon_keys(120) + 1);
    assert(count_carbon_keys(140) == count_carbon_keys(120) + 2);
}

/// Keys 140 to 159: 1 of them have a Carbon virtual key code.
proof fn lemma_carbon_key_count_7()
    ensures
        count_carbon_keys(160) == count_carbon_keys(140) + 1,
{
    assert(count_carbon_keys(141) == count_carbon_keys(140) + 1);
    assert(count_carbon_keys(142) == count_carbon_keys(140) + 1);
    assert(count_carbon_keys(143) == count_carbon_keys(140) + 1);
    assert(count_carbon_keys(144) == count_carbon_keys(140) + 1);
    assert(count_carbon_keys(145) == count_carbon_keys(140) + 1);
    assert(count_carbon_keys(146) == count_carbon_keys(140) + 1);
    assert(count_carbon_keys(147) == count_carbon_keys(140) + 1);
    assert(count_carbon_keys(148) == count_carbon_keys(140) + 1);
    assert(count_carbon_keys(149) == count_carbon_keys(140) + 1);
    assert(count_carbon_keys(150) == count_carbon_keys(140) + 1);
    assert(count_carbon_keys(151) == count_carbon_keys(140) + 1);
    assert(count_carbon_keys(152) == count_carbon_keys(140) + 1);
    assert(count_carbon_keys(153) == count_carbon_keys(140) + 1);
    assert(count_carbon_keys(154) == count_carbon_keys(140) + 1);
    assert(count_carbon_keys(155) == count_carbon_keys(140) + 1);
    assert(count_carbon_keys(156) == count_carbon_keys(140) + 1);
    assert(count_carbon_keys(157) == count_carbon_keys(140) + 1);
    assert(count_carbon_keys(158) == count_carbon_keys(140) + 1);
    assert(count_carbon_keys(159) == count_carbon_keys(140) + 1);
    assert(count_carbon_keys(160) == count_carbon_keys(140) + 1);
}

/// Keys 160 to 179: 20 of them have a Carbon virtual key code.
proof fn lemma_carbon_key_count_8()
    ensures
        count_carbon_keys(180) == count_carbon_keys(160) + 20,
{
    assert(count_carbon_keys(161) == count_carbon_keys(160) + 1);
    assert(count_carbon_keys(162) == count_carbon_keys(160) + 2);
    assert(count_carbon_keys(163) == count_carbon_keys(160) + 3);
    assert(count_carbon_keys(164) == count_carbon_keys(160) + 4);
    assert(count_carbon_keys(165) == count_carbon_keys(160) + 5);
    assert(count_carbon_keys(166) == count_carbon_keys(160) + 6);
    assert(count_carbon_keys(167) == count_carbon_keys(160) + 7);
    assert(count_carbon_keys(168) == count_carbon_keys(160) + 8);
    assert(count_carbon_keys(169) == count_carbon_keys(160) + 9);
    assert(count_carbon_keys(170) == count_carbon_keys(160) + 10);
    assert(count_carbon_keys(171) == count_carbon_keys(160) + 11);
    assert(count_carbon_keys(172) == count_carbon_keys(160) + 12);
    assert(count_carbon_keys(173) == count_carbon_keys(160) + 13);
    assert(count_carbon_keys(174) == count_carbon_keys(160) + 14);
    assert(count_carbon_keys(175) == count_carbon_keys(160) + 15);
    assert(count_carbon_keys(176) == count_carbon_keys(160) + 16);
    assert(count_carbon_keys(177) == count_carbon_keys(160) + 17);
    assert(count_carbon_keys(178) == count_carbon_keys(160) + 18);
    assert(count_carbon_keys(179) == count_carbon_keys(160) + 19);
    assert(count_carbon_keys(180) == count_carbon_keys(160) + 20);
}

/// Keys 180 to 199: 0 of them have a Carbon virtual key code.
proof fn lemma_carbon_key_count_9()
    ensures
        count_carbon_keys(200) == count_carbon_keys(180) + 0,
{
    assert(count_carbon_keys(181) == count_carbon_keys(180) + 0);
    assert(count_carbon_keys(182) == count_carbon_keys(180) + 0);
    assert(count_carbon_keys(183) == count_carbon_keys(180) + 0);
    assert(count_carbon_keys(184) == count_carbon_keys(180) + 0);
    assert(count_carbon_keys(185) == count_carbon_keys(180) + 0);
    assert(count_carbon_keys(186) == count_carbon_keys(180) + 0);
    assert(count_carbon_keys(187) == count_carbon_keys(180) + 0);
    assert(count_carbon_keys(188) == count_carbon_keys(180) + 0);
    assert(count_carbon_keys(189) == count_carbon_keys(180) + 0);
    assert(count_carbon_keys(190) == count_carbon_keys(180) + 0);
    assert(count_carbon_keys(191) == count_carbon_keys(180) + 0);
    assert(count_carbon_keys(192) == count_carbon_keys(180) + 0);
    assert(count_carbon_keys(193) == count_carbon_keys(180) + 0);
    assert(count_carbon_keys(194) == count_carbon_keys(180) + 0);
    assert(count_carbon_keys(195) == count_carbon_keys(180) + 0);
    assert(count_carbon_keys(196) == count_carbon_keys(180) + 0);
    assert(count_carbon_keys(197) == count_carbon_keys(180) + 0);
    assert(count_carbon_keys(198) == count_carbon_keys(180) + 0);
    assert(count_carbon_keys(199) == count_carbon_keys(180) + 0);
    assert(count_carbon_keys(200) == count_carbon_keys(180) + 0);
}

/// Keys 200 to 214: 0 of them have a Carbon virtual key code.
proof fn lemma_carbon_key_count_10()
    ensures
        count_carbon_keys(215) == count_carbon_keys(200) + 0,
{
    assert(count_carbon_keys(201) == count_carbon_keys(200) + 0);
    assert(count_carbon_keys(202) == count_carbon_keys(200) + 0);
    assert(count_carbon_keys(203) == count_carbon_keys(200) + 0);
    assert(count_carbon_keys(204) == count_carbon_keys(200) + 0);
    assert(count_carbon_keys(205) == count_carbon_keys(200) + 0);
    assert(count_carbon_keys(206) == count_carbon_keys(200) + 0);
    assert(count_carbon_keys(207) == count_carbon_keys(200) + 0);
    assert(count_carbon_keys(208) == count_carbon_keys(200) + 0);
    assert(count_carbon_keys(209) == count_carbon_keys(200) + 0);
    assert(count_carbon_keys(210) == count_carbon_keys(200) + 0);
    assert(count_carbon_keys(211) == count_carbon_keys(200) + 0);
    assert(count_carbon_keys(212) == count_carbon_keys(200) + 0);
    assert(count_carbon_keys(213) == count_carbon_keys(200) + 0);
    assert(count_carbon_keys(214) == count_carbon_keys(200) + 0);
    assert(count_carbon_keys(215) == count_carbon_keys(200) + 0);
}

/// Exactly 105 keys have a Carbon virtual key code.
pub proof fn lemma_carbon_key_count()
    ensures
        count_carbon_keys(CODE_COUNT as nat) == 105,
{
    lemma_carbon_key_count_0();
    lemma_carbon_key_count_1();
    lemma_carbon_key_count_2();
    lemma_carbon_key_count_3();
    lemma_carbon_key_count_4();
    lemma_carbon_key_count_5();
    lemma_carbon_key_count_6();
    lemma_carbon_key_count_7();
    lemma_carbon_key_count_8();
    lemma_carbon_key_count_9();
    lemma_carbon_key_count_10();
}

} // verus!
