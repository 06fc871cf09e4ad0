//! Media keys and side-specific modifier keys, which Carbon cannot register:
//! the event tap watches them, and these functions decide, for each event it
//! sees, which hotkey event (if any) to report.

use vstd::prelude::*;
use std::collections::HashMap;
use crate::code::Code;
use crate::hotkey::{spec_new_hotkey, GlobalHotKeyEvent, HotKey, HotKeyState};
use crate::keymap::{modifier_key_for_keycode, spec_modifier_key_for_keycode};
use crate::modifiers::{Modifiers, ALT, CONTROL, FN, META, SHIFT};

verus! {

/// Event flag of a held Shift key (`kCGEventFlagMaskShift`, `NSEventModifierFlagShift`).
pub const EVENT_FLAG_SHIFT: u64 = 0x0002_0000;
/// Event flag of a held Control key (`kCGEventFlagMaskControl`, `NSEventModifierFlagControl`).
pub const EVENT_FLAG_CONTROL: u64 = 0x0004_0000;
/// Event flag of a held Option key (`kCGEventFlagMaskAlternate`, `NSEventModifierFlagOption`).
pub const EVENT_FLAG_ALTERNATE: u64 = 0x0008_0000;
/// Event flag of a held Command key (`kCGEventFlagMaskCommand`, `NSEventModifierFlagCommand`).
pub const EVENT_FLAG_COMMAND: u64 = 0x0010_0000;
/// Event flag of a held `fn` key (`kCGEventFlagMaskSecondaryFn`, `NSEventModifierFlagFunction`).
pub const EVENT_FLAG_FUNCTION: u64 = 0x0080_0000;

/// `kCGEventFlagsChanged`: a modifier key went down or up.
pub const CG_EVENT_FLAGS_CHANGED: u32 = 12;
/// `NX_SYSDEFINED`: a system-defined event, among them the media keys.
pub const CG_EVENT_SYSTEM_DEFINED: u32 = 14;
/// `NSEventTypeSystemDefined`.
pub const NS_EVENT_TYPE_SYSTEM_DEFINED: u64 = 14;
/// `NSEventSubtypeScreenChanged`, the subtype of the system-defined events
/// that carry a media key.
pub const NS_EVENT_SUBTYPE_SCREEN_CHANGED: i16 = 8;

/// The modifier bits that event flags report: Shift, Control, Alt,
/// Command as `META`, and `fn` as `FN`.
pub open spec fn spec_event_modifiers(flags: u64) -> int {
    (if flags & EVENT_FLAG_SHIFT != 0 { SHIFT as int } else { 0 })
        + (if flags & EVENT_FLAG_CONTROL != 0 { CONTROL as int } else { 0 })
        + (if flags & EVENT_FLAG_ALTERNATE != 0 { ALT as int } else { 0 })
        + (if flags & EVENT_FLAG_COMMAND != 0 { META as int } else { 0 })
        + (if flags & EVENT_FLAG_FUNCTION != 0 { FN as int } else { 0 })
}

/// The modifiers held according to the flags of an event.
pub fn event_modifiers(flags: u64) -> (r: Modifiers)
    ensures
        r@ == spec_event_modifiers(flags),
{
    let mut bits: u16 = 0;
    if flags & EVENT_FLAG_SHIFT != 0 {
        bits = bits + SHIFT;
    }
    if flags & EVENT_FLAG_CONTROL != 0 {
        bits = bits + CONTROL;
    }
    if flags & EVENT_FLAG_ALTERNATE != 0 {
        bits = bits + ALT;
    }
    if flags & EVENT_FLAG_COMMAND != 0 {
        bits = bits + META;
    }
    if flags & EVENT_FLAG_FUNCTION != 0 {
        bits = bits + FN;
    }
    Modifiers::from_flags(bits)
}

/// The modifier that a modifier key itself sets in the event flags.
pub open spec fn spec_own_modifier(code: Code) -> u16 {
    match code {
        Code::ShiftLeft | Code::ShiftRight => SHIFT,
        Code::ControlLeft | Code::ControlRight => CONTROL,
        Code::AltLeft | Code::AltRight => ALT,
        Code::MetaLeft | Code::MetaRight => META,
        Code::Fn => FN,
        _ => 0,
    }
}

/// The hotkey that a `FlagsChanged` event stands for: the modifier key that
/// changed, with the other modifiers that the flags report (the key's own
/// modifier left out), or `None` where the event is not about a modifier key.
pub open spec fn spec_flags_changed_hotkey(keycode: u16, flags: u64) -> Option<HotKey> {
    match spec_modifier_key_for_keycode(keycode) {
        Some(code) => Some(spec_new_hotkey((spec_event_modifiers(flags) as u16) & !spec_own_modifier(code), code)),
        None => None,
    }
}

/// The hotkey that a `FlagsChanged` event with virtual key code `keycode`
/// and event flags `flags` stands for.
pub fn flags_changed_hotkey(keycode: u16, flags: u64) -> (r: Option<HotKey>)
    ensures
        r == spec_flags_changed_hotkey(keycode, flags),
{
    let code = match modifier_key_for_keycode(keycode) {
        Some(code) => code,
        None => return None,
    };
    let mut mods = event_modifiers(flags);
    match code {
        Code::ShiftLeft | Code::ShiftRight => mods.remove(Modifiers::from_flags(SHIFT)),
        Code::ControlLeft | Code::ControlRight => mods.remove(Modifiers::from_flags(CONTROL)),
        Code::AltLeft | Code::AltRight => mods.remove(Modifiers::from_flags(ALT)),
        Code::MetaLeft | Code::MetaRight => mods.remove(Modifiers::from_flags(META)),
        Code::Fn => mods.remove(Modifiers::from_flags(FN)),
        _ => {},
    }
    Some(HotKey::new(Some(mods), code))
}

/// The media keys that system-defined events report.
#[allow(non_camel_case_types)]
#[derive(Clone, Copy, Debug, PartialEq, Eq, Hash, Structural)]
pub enum NX_KEYTYPE {
    /// Play/Pause (`NX_KEYTYPE_PLAY`, 16).
    Play,
    /// Next track (`NX_KEYTYPE_NEXT`, 17).
    Next,
    /// Previous track (`NX_KEYTYPE_PREVIOUS`, 18).
    Previous,
    /// Fast forward (`NX_KEYTYPE_FAST`, 19).
    Fast,
    /// Rewind (`NX_KEYTYPE_REWIND`, 20).
    Rewind,
}

impl NX_KEYTYPE {
    /// The media key with number `value`, if any.
    pub open spec fn spec_from_value(value: i64) -> Option<NX_KEYTYPE> {
        match value {
            16 => Some(NX_KEYTYPE::Play),
            17 => Some(NX_KEYTYPE::Next),
            18 => Some(NX_KEYTYPE::Previous),
            19 => Some(NX_KEYTYPE::Fast),
            20 => Some(NX_KEYTYPE::Rewind),
            _ => None,
        }
    }

    /// The media key with number `value`; an error for any other number.
    pub fn try_from(value: i64) -> (r: Result<NX_KEYTYPE, String>)
        ensures
            match NX_KEYTYPE::spec_from_value(value) {
                Some(k) => r == Ok::<NX_KEYTYPE, String>(k),
                None => r matches Err(e) && e@ == "Not defined media key"@,
            },
    {
        match value {
            16 => Ok(NX_KEYTYPE::Play),
            17 => Ok(NX_KEYTYPE::Next),
            18 => Ok(NX_KEYTYPE::Previous),
            19 => Ok(NX_KEYTYPE::Fast),
            20 => Ok(NX_KEYTYPE::Rewind),
            _ => Err(String::from_str("Not defined media key")),
        }
    }

    /// The key that a media key is.
    pub open spec fn spec_code(self) -> Code {
        match self {
            NX_KEYTYPE::Play => Code::MediaPlayPause,
            NX_KEYTYPE::Next => Code::MediaTrackNext,
            NX_KEYTYPE::Previous => Code::MediaTrackPrevious,
            NX_KEYTYPE::Fast => Code::MediaFastForward,
            NX_KEYTYPE::Rewind => Code::MediaRewind,
        }
    }
}

impl From<NX_KEYTYPE> for Code {
    fn from(nx_keytype: NX_KEYTYPE) -> (r: Code) {
        match nx_keytype {
            NX_KEYTYPE::Play => Code::MediaPlayPause,
            NX_KEYTYPE::Next => Code::MediaTrackNext,
            NX_KEYTYPE::Previous => Code::MediaTrackPrevious,
            NX_KEYTYPE::Fast => Code::MediaFastForward,
            NX_KEYTYPE::Rewind => Code::MediaRewind,
        }
    }
}

impl vstd::std_specs::convert::FromSpecImpl<NX_KEYTYPE> for Code {
    open spec fn obeys_from_spec() -> bool {
        true
    }

    open spec fn from_spec(v: NX_KEYTYPE) -> Code {
        v.spec_code()
    }
}

/// What the event tap knows: the hotkeys it watches for, and the last known
/// state (down or up) of each modifier key, by virtual key code.
pub struct MediaState {
    hotkeys: HashMap<u32, HotKey>,
    pressed: HashMap<u16, bool>,
}

impl MediaState {
    /// Each watched hotkey is stored under its id.
    pub closed spec fn wf(&self) -> bool {
        forall|id: u32| #[trigger] self.hotkeys@.contains_key(id) ==> self.hotkeys@[id].spec_id() == id
    }

    /// The hotkeys that the event tap watches for.
    pub closed spec fn registered(&self) -> Set<HotKey> {
        Set::new(|h: HotKey| self.hotkeys@.contains_key(h.spec_id()))
    }

    /// The last known state of each modifier key, by virtual key code: `true` for down.
    pub closed spec fn pressed(&self) -> Map<u16, bool> {
        self.pressed@
    }

    /// Whether the modifier key with virtual key code `keycode` was last known to be down.
    pub open spec fn was_pressed(&self, keycode: u16) -> bool {
        self.pressed().contains_key(keycode) && self.pressed()[keycode]
    }

    /// No watched hotkeys, no known key states.
    pub fn new() -> (r: MediaState)
        ensures
            r.wf(),
            r.registered() == Set::<HotKey>::empty(),
            r.pressed() == Map::<u16, bool>::empty(),
    {
        let r = MediaState { hotkeys: HashMap::new(), pressed: HashMap::new() };
        assert(r.registered() =~= Set::<HotKey>::empty());
        r
    }

    /// Whether the event tap watches for `hotkey`.
    pub fn contains(&self, hotkey: &HotKey) -> (r: bool)
        requires
            self.wf(),
        ensures
            r == self.registered().contains(*hotkey),
    {
        self.hotkeys.contains_key(&hotkey.id())
    }

    /// Starts watching for `hotkey`; `false` where it was watched already.
    pub fn insert(&mut self, hotkey: HotKey) -> (r: bool)
        requires
            old(self).wf(),
        ensures
            final(self).wf(),
            r == !old(self).registered().contains(hotkey),
            final(self).registered() == old(self).registered().insert(hotkey),
            final(self).pressed() == old(self).pressed(),
    {
        let id = hotkey.id();
        if self.hotkeys.contains_key(&id) {
            return false;
        }
        self.hotkeys.insert(id, hotkey);
        proof {
            assert forall|h: HotKey| #[trigger] final(self).registered().contains(h) == old(self).registered().insert(hotkey).contains(h) by {
                HotKey::lemma_id_injective(h, hotkey);
            }
            assert(final(self).registered() =~= old(self).registered().insert(hotkey));
        }
        true
    }

    /// Stops watching for `hotkey`; `false` where it was not watched.
    pub fn remove(&mut self, hotkey: &HotKey) -> (r: bool)
        requires
            old(self).wf(),
        ensures
            final(self).wf(),
            r == old(self).registered().contains(*hotkey),
            final(self).registered() == old(self).registered().remove(*hotkey),
            final(self).pressed() == old(self).pressed(),
    {
        let id = hotkey.id();
        let r = self.hotkeys.remove(&id).is_some();
        proof {
            assert forall|h: HotKey| #[trigger] final(self).registered().contains(h) == old(self).registered().remove(*hotkey).contains(h) by {
                HotKey::lemma_id_injective(h, *hotkey);
            }
            assert(final(self).registered() =~= old(self).registered().remove(*hotkey));
        }
        r
    }

    /// Whether the event tap watches for no hotkey.
    pub fn is_empty(&self) -> (r: bool)
        requires
            self.wf(),
        ensures
            r == (self.registered() == Set::<HotKey>::empty()),
    {
        let r = self.hotkeys.is_empty();
        proof {
            if r {
                assert(self.registered() =~= Set::<HotKey>::empty());
            } else {
                let id = choose|id: u32| self.hotkeys@.contains_key(id);
                assert(self.registered().contains(self.hotkeys@[id]));
            }
        }
        r
    }
}

/// The report of a hotkey with id `id` that went down (`down`) or up.
pub open spec fn spec_event(id: u32, down: bool) -> GlobalHotKeyEvent {
    GlobalHotKeyEvent { id, state: if down { HotKeyState::Pressed } else { HotKeyState::Released } }
}

/// What a `FlagsChanged` event does, given the watched hotkeys and the known
/// key states: the key states after it, and the hotkey event it reports.
///
/// The system's report of whether the key is down (`reported_down`) may lag
/// behind the event; a key it reports down is down, and a key it reports up
/// has changed state since the last event, so it is taken to have toggled.
/// An event is reported only when the key's state changed.
pub open spec fn spec_flags_changed_step(
    registered: Set<HotKey>,
    pressed: Map<u16, bool>,
    keycode: u16,
    flags: u64,
    reported_down: bool,
) -> (Map<u16, bool>, Option<GlobalHotKeyEvent>) {
    match spec_flags_changed_hotkey(keycode, flags) {
        Some(h) => if registered.contains(h) {
            let was = pressed.contains_key(keycode) && pressed[keycode];
            let now = reported_down || !was;
            (
                pressed.insert(keycode, now),
                if now != was { Some(spec_event(h.spec_id(), now)) } else { None },
            )
        } else {
            (pressed, None)
        },
        None => (pressed, None),
    }
}

/// The bits of a system-defined event's `data1` that name the media key.
pub open spec fn spec_media_key_value(data1: i64) -> i64 {
    (data1 & 0xFFFF0000i64) >> 16i64
}

/// Whether a system-defined event's `data1` reports its media key as down:
/// the key state byte is `0xA` (`NX_KEYDOWN`).
pub open spec fn spec_media_key_down(data1: i64) -> bool {
    ((data1 & 0x0000FFFFi64) & 0xFF00i64) >> 8i64 == 0xAi64
}

/// The hotkey event that a system-defined event reports, given the watched
/// hotkeys; `None` where it is not a media key event of a watched hotkey.
/// Where it is `Some`, the event tap swallows the event.
pub open spec fn spec_system_defined_event(
    registered: Set<HotKey>,
    ns_type: u64,
    ns_subtype: i16,
    data1: i64,
    flags: u64,
) -> Option<GlobalHotKeyEvent> {
    if ns_type == NS_EVENT_TYPE_SYSTEM_DEFINED && ns_subtype == NS_EVENT_SUBTYPE_SCREEN_CHANGED {
        match NX_KEYTYPE::spec_from_value(spec_media_key_value(data1)) {
            Some(k) => {
                let h = spec_new_hotkey(spec_event_modifiers(flags) as u16, k.spec_code());
                if registered.contains(h) {
                    Some(spec_event(h.spec_id(), spec_media_key_down(data1)))
                } else {
                    None
                }
            },
            None => None,
        }
    } else {
        None
    }
}

/// The kinds of events that the event tap sees.
#[derive(Clone, Copy, Debug, PartialEq, Eq, Hash, Structural)]
pub enum TapEventKind {
    /// A modifier key went down or up.
    FlagsChanged,
    /// A system-defined event, possibly a media key.
    SystemDefined,
    /// Any other event, which the tap passes on untouched.
    Other,
}

impl MediaState {
    /// The kind of an event of Core Graphics type `event_type`.
    pub fn classify(event_type: u32) -> (r: TapEventKind)
        ensures
            r == (if event_type == CG_EVENT_FLAGS_CHANGED {
                TapEventKind::FlagsChanged
            } else if event_type == CG_EVENT_SYSTEM_DEFINED {
                TapEventKind::SystemDefined
            } else {
                TapEventKind::Other
            }),
    {
        if event_type == CG_EVENT_FLAGS_CHANGED {
            TapEventKind::FlagsChanged
        } else if event_type == CG_EVENT_SYSTEM_DEFINED {
            TapEventKind::SystemDefined
        } else {
            TapEventKind::Other
        }
    }

    /// A `FlagsChanged` event for the key with virtual key code `keycode`,
    /// with event flags `flags`, while the system reports the key down or not
    /// (`reported_down`): updates the key's known state and returns the
    /// hotkey event to report, if any. The event itself is passed on.
    pub fn on_flags_changed(&mut self, keycode: u16, flags: u64, reported_down: bool) -> (r: Option<GlobalHotKeyEvent>)
        requires
            old(self).wf(),
        ensures
            final(self).wf(),
            final(self).registered() == old(self).registered(),
            (final(self).pressed(), r) == spec_flags_changed_step(
                old(self).registered(),
                old(self).pressed(),
                keycode,
                flags,
                reported_down,
            ),
    {
        let hotkey = match flags_changed_hotkey(keycode, flags) {
            Some(h) => h,
            None => return None,
        };
        if !self.contains(&hotkey) {
            return None;
        }
        let was_pressed = match self.pressed.get(&keycode) {
            Some(p) => *p,
            None => false,
        };
        let is_pressed = if reported_down {
            true
        } else {
            !was_pressed
        };
        self.pressed.insert(keycode, is_pressed);
        proof {
            assert(final(self).registered() =~= old(self).registered());
        }
        if is_pressed != was_pressed {
            Some(GlobalHotKeyEvent {
                id: hotkey.id(),
                state: if is_pressed {
                    HotKeyState::Pressed
                } else {
                    HotKeyState::Released
                },
            })
        } else {
            None
        }
    }

    /// Whether an AppKit event of type `ns_type` and subtype `ns_subtype`
    /// carries a media key (only then may its `data1` be read).
    pub fn is_media_key_event(ns_type: u64, ns_subtype: i16) -> (r: bool)
        ensures
            r == (ns_type == NS_EVENT_TYPE_SYSTEM_DEFINED && ns_subtype == NS_EVENT_SUBTYPE_SCREEN_CHANGED),
    {
        ns_type == NS_EVENT_TYPE_SYSTEM_DEFINED && ns_subtype == NS_EVENT_SUBTYPE_SCREEN_CHANGED
    }

    /// A system-defined event of AppKit type `ns_type` and subtype
    /// `ns_subtype`, with data `data1` and modifier flags `flags`: the hotkey
    /// event to report, if it is a media key of a watched hotkey. Where the
    /// result is `Some`, the event tap swallows the event.
    pub fn on_system_defined(&self, ns_type: u64, ns_subtype: i16, data1: i64, flags: u64) -> (r: Option<GlobalHotKeyEvent>)
        requires
            self.wf(),
        ensures
            r == spec_system_defined_event(self.registered(), ns_type, ns_subtype, data1, flags),
    {
        if !MediaState::is_media_key_event(ns_type, ns_subtype) {
            return None;
        }
        let nx_keytype = match NX_KEYTYPE::try_from((data1 & 0xFFFF0000i64) >> 16i64) {
            Ok(k) => k,
            Err(_) => return None,
        };
        let mods = event_modifiers(flags);
        let hotkey = HotKey::new(Some(mods), Code::from(nx_keytype));
        if self.contains(&hotkey) {
            let key_flags: i64 = data1 & 0x0000FFFFi64;
            let is_pressed: bool = ((key_flags & 0xFF00i64) >> 8i64) == 0xAi64;
            Some(GlobalHotKeyEvent {
                id: hotkey.id(),
                state: if is_pressed {
                    HotKeyState::Pressed
                } else {
                    HotKeyState::Released
                },
            })
        } else {
            None
        }
    }
}

} // verus!
