//! Modifier keys held together with a hotkey's main key, as a set of bits.
//!
//! Besides the four side-neutral modifiers (`SHIFT`, `CONTROL`, `ALT`,
//! `SUPER`, with `META` as a synonym of `SUPER` on macOS), a hotkey may ask for
//! one side of the keyboard only (`SHIFT_LEFT`, `CONTROL_RIGHT`, ...), and for
//! the Mac `FN` key. All bits fit in 16 bits, so that a hotkey id can carry
//! them in its upper half.

use vstd::prelude::*;

verus! {

/// Shift, on either side.
pub const SHIFT: u16 = 0x0001;
/// Control, on either side.
pub const CONTROL: u16 = 0x0002;
/// Alt (Option on macOS), on either side.
pub const ALT: u16 = 0x0004;
/// Super (Command on macOS, Windows key elsewhere), on either side.
pub const SUPER: u16 = 0x0008;
/// Meta: on macOS the Command key, like `SUPER`.
pub const META: u16 = 0x0010;
/// The Mac `fn` key.
pub const FN: u16 = 0x0020;
/// The left Shift key only.
pub const SHIFT_LEFT: u16 = 0x0040;
/// The right Shift key only.
pub const SHIFT_RIGHT: u16 = 0x0080;
/// The left Control key only.
pub const CONTROL_LEFT: u16 = 0x0100;
/// The right Control key only.
pub const CONTROL_RIGHT: u16 = 0x0200;
/// The left Alt (Option) key only.
pub const ALT_LEFT: u16 = 0x0400;
/// The right Alt (Option) key only.
pub const ALT_RIGHT: u16 = 0x0800;
/// The left Super (Command) key only.
pub const SUPER_LEFT: u16 = 0x1000;
/// The right Super (Command) key only.
pub const SUPER_RIGHT: u16 = 0x2000;
/// Every bit that names a modifier.
pub const ALL: u16 = 0x3fff;

/// A set of modifier keys.
#[derive(Clone, Copy, Debug, PartialEq, Eq, Hash, Structural)]
pub struct Modifiers {
    /// The modifier bits.
    pub bits: u16,
}

impl View for Modifiers {
    type V = u16;

    /// The set's bits.
    open spec fn view(&self) -> u16 {
        self.bits
    }
}

/// Whether the set `m` holds every bit of `flags`.
pub open spec fn spec_contains(m: u16, flags: u16) -> bool {
    m & flags == flags
}

/// Whether the set `m` holds some bit of `flags`.
pub open spec fn spec_intersects(m: u16, flags: u16) -> bool {
    m & flags != 0
}

impl Modifiers {
    /// The empty set.
    pub fn empty() -> (r: Modifiers)
        ensures
            r@ == 0,
    {
        Modifiers { bits: 0 }
    }

    /// The modifier bits among `bits`.
    pub open spec fn spec_from_bits_truncate(bits: u32) -> u16 {
        (bits & (ALL as u32)) as u16
    }

    /// The set of the modifier bits in `bits`; other bits are dropped.
    pub fn from_bits_truncate(bits: u32) -> (r: Modifiers)
        ensures
            r@ == Modifiers::spec_from_bits_truncate(bits),
    {
        let masked: u32 = bits & 0x3fff;
        assert(masked <= 0x3fff) by (bit_vector)
            requires
                masked == bits & 0x3fff,
        ;
        Modifiers { bits: masked as u16 }
    }

    /// The set that holds exactly the bits of `flags`.
    pub fn from_flags(flags: u16) -> (r: Modifiers)
        ensures
            r@ == flags,
    {
        Modifiers { bits: flags }
    }

    /// The set's bits, widened to 32 bits.
    pub fn bits(&self) -> (r: u32)
        ensures
            r == self@ as u32,
            r <= 0xffff,
    {
        self.bits as u32
    }

    /// Whether the set holds every modifier of `other`.
    pub fn contains(&self, other: Modifiers) -> (r: bool)
        ensures
            r == spec_contains(self@, other@),
    {
        self.bits & other.bits == other.bits
    }

    /// Whether the set holds some modifier of `other`.
    pub fn intersects(&self, other: Modifiers) -> (r: bool)
        ensures
            r == spec_intersects(self@, other@),
    {
        self.bits & other.bits != 0
    }

    /// The modifiers of either set.
    pub fn union(self, other: Modifiers) -> (r: Modifiers)
        ensures
            r@ == self@ | other@,
    {
        Modifiers { bits: self.bits | other.bits }
    }

    /// Adds the modifiers of `other`.
    pub fn insert(&mut self, other: Modifiers)
        ensures
            final(self)@ == old(self)@ | other@,
    {
        self.bits = self.bits | other.bits;
    }

    /// Takes the modifiers of `other` out.
    pub fn remove(&mut self, other: Modifiers)
        ensures
            final(self)@ == old(self)@ & !other@,
    {
        self.bits = self.bits & !other.bits;
    }

    /// Two sets with the same bits are the same set.
    pub proof fn lemma_view_injective(a: Modifiers, b: Modifiers)
        ensures
            a@ == b@ <==> a == b,
    {
    }

    /// Whether the set is empty.
    pub fn is_empty(&self) -> (r: bool)
        ensures
            r == (self@ == 0),
    {
        self.bits == 0
    }
}

} // verus!
