//! Hotkeys, their ids, and the events that report them.

use vstd::prelude::*;
use crate::code::{Code, CODE_COUNT};
use crate::modifiers::{Modifiers, META, SUPER};

verus! {

/// A key combination: a set of modifiers held with one main key.
#[derive(Clone, Copy, Debug, PartialEq, Eq, Hash, Structural)]
pub struct HotKey {
    /// The modifiers that must be held.
    pub mods: Modifiers,
    /// The main key.
    pub key: Code,
}

/// The id of the hotkey with modifier bits `mods` and main key `key`: the
/// modifier bits in the upper 16 bits, the key's number in the lower 16.
pub open spec fn spec_hotkey_id(mods: u16, key: Code) -> u32 {
    ((mods as u32) << 16u32) | (key.spec_index() as u32)
}

/// Modifier bits with `META` written as `SUPER`, its synonym.
pub open spec fn spec_normalized_mods(bits: u16) -> u16 {
    if bits & META == META {
        (bits & !META) | SUPER
    } else {
        bits
    }
}

/// The hotkey that `HotKey::new` makes of modifier bits `mods` and key `key`.
pub open spec fn spec_new_hotkey(mods: u16, key: Code) -> HotKey {
    HotKey { mods: Modifiers { bits: spec_normalized_mods(mods) }, key }
}

impl HotKey {
    /// The hotkey `mods` + `key`; no modifiers where `mods` is `None`.
    /// `META` is taken as its synonym `SUPER`.
    pub fn new(mods: Option<Modifiers>, key: Code) -> (r: HotKey)
        ensures
            r == spec_new_hotkey(
                match mods {
                    Some(m) => m@,
                    None => 0,
                },
                key,
            ),
    {
        let mut mods = match mods {
            Some(m) => m,
            None => Modifiers::empty(),
        };
        if mods.contains(Modifiers::from_flags(META)) {
            mods.remove(Modifiers::from_flags(META));
            mods.insert(Modifiers::from_flags(SUPER));
        }
        HotKey { mods, key }
    }

    /// A hotkey that `new` makes never holds `META`: it holds `SUPER` in its
    /// place, and otherwise the modifiers it was given.
    pub proof fn lemma_new_writes_meta_as_super(mods: u16, key: Code)
        ensures
            spec_new_hotkey(mods, key).mods@ & META == 0,
            mods & META == META ==> spec_new_hotkey(mods, key).mods@ & SUPER == SUPER,
            mods & !META == spec_new_hotkey(mods, key).mods@ & !(META | SUPER) | (mods & SUPER),
    {
        let n = spec_new_hotkey(mods, key).mods@;
        assert(META == 0x0010u16 && SUPER == 0x0008u16);
        assert(n & 0x0010u16 == 0 && (mods & 0x0010u16 == 0x0010u16 ==> n & 0x0008u16 == 0x0008u16)
            && mods & !0x0010u16 == n & !(0x0010u16 | 0x0008u16) | (mods & 0x0008u16)) by (bit_vector)
            requires
                n == (if mods & 0x0010u16 == 0x0010u16 { (mods & !0x0010u16) | 0x0008u16 } else { mods }),
        ;
    }

    /// The hotkey's id.
    pub open spec fn spec_id(self) -> u32 {
        spec_hotkey_id(self.mods@, self.key)
    }

    /// The hotkey's id: the modifier bits in the upper 16 bits, the key's
    /// number in the lower 16.
    pub fn id(&self) -> (r: u32)
        ensures
            r == self.spec_id(),
    {
        let m: u32 = self.mods.bits();
        let k: u32 = self.key.index() as u32;
        (m << 16u32) | k
    }

    /// An id holds the hotkey's modifier bits in its upper half and the
    /// number of its key in its lower half, so each can be read back.
    pub proof fn lemma_id_layout(self)
        ensures
            self.spec_id() >> 16u32 == self.mods@ as u32,
            self.spec_id() & 0xffffu32 == self.key.spec_index() as u32,
    {
        let m: u32 = self.mods@ as u32;
        let k: u32 = self.key.spec_index() as u32;
        assert(k < 0x10000) by {
            Code::lemma_index_round_trip(self.key);
        }
        assert(((m << 16u32) | k) >> 16u32 == m && ((m << 16u32) | k) & 0xffffu32 == k)
            by (bit_vector)
            requires
                m < 0x10000,
                k < 0x10000,
        ;
    }

    /// Two hotkeys have the same id exactly when they are the same hotkey.
    pub proof fn lemma_id_injective(a: HotKey, b: HotKey)
        ensures
            a.spec_id() == b.spec_id() <==> a == b,
    {
        a.lemma_id_layout();
        b.lemma_id_layout();
        Code::lemma_index_injective(a.key, b.key);
        Modifiers::lemma_view_injective(a.mods, b.mods);
    }
}

/// Whether a hotkey went down or came up.
#[derive(Clone, Copy, Debug, PartialEq, Eq, Hash, Structural)]
pub enum HotKeyState {
    /// The hotkey was pressed.
    Pressed,
    /// The hotkey was released.
    Released,
}

/// A hotkey was pressed or released.
#[derive(Clone, Copy, Debug, PartialEq, Eq, Hash, Structural)]
pub struct GlobalHotKeyEvent {
    /// The id of the hotkey.
    pub id: u32,
    /// Whether it was pressed or released.
    pub state: HotKeyState,
}

} // verus!
