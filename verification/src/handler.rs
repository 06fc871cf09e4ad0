//! The Carbon hotkey handler: which hotkey events it reports.
//!
//! Carbon matches a registered hotkey by its side-neutral modifiers only; a
//! hotkey that asks for a modifier on one side of the keyboard, or for the
//! Mac `fn` key, is reported only while that very key is down.

use vstd::prelude::*;
use crate::hotkey::{GlobalHotKeyEvent, HotKeyState};
use crate::modifiers::{
    spec_contains, Modifiers, ALT_LEFT, FN, ALT_RIGHT, CONTROL_LEFT, CONTROL_RIGHT, SHIFT_LEFT,
    SHIFT_RIGHT, SUPER_LEFT, SUPER_RIGHT,
};

verus! {

/// Carbon's `kEventHotKeyPressed` event kind.
pub const EVENT_HOTKEY_PRESSED: u32 = 5;
/// Carbon's `kEventHotKeyReleased` event kind.
pub const EVENT_HOTKEY_RELEASED: u32 = 6;

/// Whether each side-specific modifier key, and the `fn` key, is down, as the system reports it
/// for the combined session (`CGEventSourceKeyState`).
#[derive(Clone, Copy, Debug, PartialEq, Eq, Structural)]
pub struct SideKeyStates {
    /// `kVK_Shift`.
    pub shift_left: bool,
    /// `kVK_RightShift`.
    pub shift_right: bool,
    /// `kVK_Control`.
    pub control_left: bool,
    /// `kVK_RightControl`.
    pub control_right: bool,
    /// `kVK_Option`.
    pub alt_left: bool,
    /// `kVK_RightOption`.
    pub alt_right: bool,
    /// `kVK_Command`.
    pub super_left: bool,
    /// `kVK_RightCommand`.
    pub super_right: bool,
    /// `kVK_Function`: the Mac `fn` key.
    pub fn_key: bool,
}

/// Whether every side-specific modifier in `mods`, and the `fn` key where
/// `mods` asks for `FN`, is down.
pub open spec fn spec_modifiers_match(mods: u16, keys: SideKeyStates) -> bool {
    &&& spec_contains(mods, SHIFT_LEFT) ==> keys.shift_left
    &&& spec_contains(mods, SHIFT_RIGHT) ==> keys.shift_right
    &&& spec_contains(mods, CONTROL_LEFT) ==> keys.control_left
    &&& spec_contains(mods, CONTROL_RIGHT) ==> keys.control_right
    &&& spec_contains(mods, ALT_LEFT) ==> keys.alt_left
    &&& spec_contains(mods, ALT_RIGHT) ==> keys.alt_right
    &&& spec_contains(mods, SUPER_LEFT) ==> keys.super_left
    &&& spec_contains(mods, SUPER_RIGHT) ==> keys.super_right
    &&& spec_contains(mods, FN) ==> keys.fn_key
}

/// Whether the side-specific modifiers and `FN` among the modifier bits
/// `mods` are all down; other bits are ignored.
pub fn modifiers_match(mods: u32, keys: &SideKeyStates) -> (r: bool)
    ensures
        r == spec_modifiers_match(Modifiers::spec_from_bits_truncate(mods), *keys),
{
    let mods = Modifiers::from_bits_truncate(mods);
    if mods.contains(Modifiers::from_flags(SHIFT_LEFT)) && !keys.shift_left {
        return false;
    }
    if mods.contains(Modifiers::from_flags(SHIFT_RIGHT)) && !keys.shift_right {
        return false;
    }
    if mods.contains(Modifiers::from_flags(CONTROL_LEFT)) && !keys.control_left {
        return false;
    }
    if mods.contains(Modifiers::from_flags(CONTROL_RIGHT)) && !keys.control_right {
        return false;
    }
    if mods.contains(Modifiers::from_flags(ALT_LEFT)) && !keys.alt_left {
        return false;
    }
    if mods.contains(Modifiers::from_flags(ALT_RIGHT)) && !keys.alt_right {
        return false;
    }
    if mods.contains(Modifiers::from_flags(SUPER_LEFT)) && !keys.super_left {
        return false;
    }
    if mods.contains(Modifiers::from_flags(SUPER_RIGHT)) && !keys.super_right {
        return false;
    }
    if mods.contains(Modifiers::from_flags(FN)) && !keys.fn_key {
        return false;
    }
    true
}

/// The event that the Carbon handler reports for a hotkey event of kind
/// `event_kind` about the hotkey with id `hotkey_id` (`None` where the
/// event's hotkey id could not be read), while the side-specific modifier
/// keys are as `keys` says.
pub open spec fn spec_hotkey_handler(hotkey_id: Option<u32>, event_kind: u32, keys: SideKeyStates) -> Option<GlobalHotKeyEvent> {
    match hotkey_id {
        Some(id) => if !spec_modifiers_match(Modifiers::spec_from_bits_truncate(id >> 16u32), keys) {
            None
        } else if event_kind == EVENT_HOTKEY_PRESSED {
            Some(GlobalHotKeyEvent { id, state: HotKeyState::Pressed })
        } else if event_kind == EVENT_HOTKEY_RELEASED {
            Some(GlobalHotKeyEvent { id, state: HotKeyState::Released })
        } else {
            None
        },
        None => None,
    }
}

/// The event that the Carbon handler reports, if any: a press or release of
/// the hotkey, where its side-specific modifiers are down (the id carries the
/// hotkey's modifiers in its upper 16 bits).
pub fn hotkey_handler(hotkey_id: Option<u32>, event_kind: u32, keys: &SideKeyStates) -> (r: Option<GlobalHotKeyEvent>)
    ensures
        r == spec_hotkey_handler(hotkey_id, event_kind, *keys),
{
    let id = match hotkey_id {
        Some(id) => id,
        None => return None,
    };
    if !modifiers_match(id >> 16u32, keys) {
        return None;
    }
    if event_kind == EVENT_HOTKEY_PRESSED {
        Some(GlobalHotKeyEvent { id, state: HotKeyState::Pressed })
    } else if event_kind == EVENT_HOTKEY_RELEASED {
        Some(GlobalHotKeyEvent { id, state: HotKeyState::Released })
    } else {
        None
    }
}

} // verus!
