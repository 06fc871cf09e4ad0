//! What the Carbon hotkey API is handed: the modifier mask and the hotkey's
//! identity (a four-character signature and the hotkey id).

use vstd::prelude::*;
use crate::modifiers::{
    Modifiers, spec_intersects, SHIFT, SHIFT_LEFT, SHIFT_RIGHT, SUPER, SUPER_LEFT, SUPER_RIGHT,
    META, ALT, ALT_LEFT, ALT_RIGHT, CONTROL, CONTROL_LEFT, CONTROL_RIGHT,
};

verus! {

/// Carbon's `cmdKey` modifier.
pub const CMD_KEY: u32 = 256;
/// Carbon's `shiftKey` modifier.
pub const SHIFT_KEY: u32 = 512;
/// Carbon's `optionKey` modifier.
pub const OPTION_KEY: u32 = 2048;
/// Carbon's `controlKey` modifier.
pub const CONTROL_KEY: u32 = 4096;

/// The modifiers that make Carbon's Shift flag: Shift on either side.
pub open spec fn shift_group() -> u16 {
    SHIFT | SHIFT_LEFT | SHIFT_RIGHT
}

/// The modifiers that make Carbon's Command flag: Super on either side, and Meta.
pub open spec fn super_group() -> u16 {
    SUPER | SUPER_LEFT | SUPER_RIGHT | META
}

/// The modifiers that make Carbon's Option flag: Alt on either side.
pub open spec fn alt_group() -> u16 {
    ALT | ALT_LEFT | ALT_RIGHT
}

/// The modifiers that make Carbon's Control flag: Control on either side.
pub open spec fn control_group() -> u16 {
    CONTROL | CONTROL_LEFT | CONTROL_RIGHT
}

/// The Carbon modifier mask for a set of modifiers: each Carbon flag is set
/// when the set holds any modifier of its group, whichever side it names.
pub open spec fn spec_carbon_modifiers(mods: u16) -> int {
    (if spec_intersects(mods, shift_group()) { SHIFT_KEY } else { 0 })
        + (if spec_intersects(mods, super_group()) { CMD_KEY } else { 0 })
        + (if spec_intersects(mods, alt_group()) { OPTION_KEY } else { 0 })
        + (if spec_intersects(mods, control_group()) { CONTROL_KEY } else { 0 })
}

/// The Carbon modifier mask with which a hotkey is registered.
pub fn carbon_modifiers(mods: Modifiers) -> (r: u32)
    ensures
        r == spec_carbon_modifiers(mods@),
{
    let mut r: u32 = 0;
    if mods.intersects(Modifiers::from_flags(SHIFT | SHIFT_LEFT | SHIFT_RIGHT)) {
        r = r + SHIFT_KEY;
    }
    if mods.intersects(Modifiers::from_flags(SUPER | SUPER_LEFT | SUPER_RIGHT | META)) {
        r = r + CMD_KEY;
    }
    if mods.intersects(Modifiers::from_flags(ALT | ALT_LEFT | ALT_RIGHT)) {
        r = r + OPTION_KEY;
    }
    if mods.intersects(Modifiers::from_flags(CONTROL | CONTROL_LEFT | CONTROL_RIGHT)) {
        r = r + CONTROL_KEY;
    }
    r
}

/// The number that a four-character code stands for: its characters as the
/// bytes of a big-endian integer.
pub open spec fn spec_four_char_code(s: Seq<char>) -> int
    decreases s.len(),
{
    if s.len() == 0 {
        0
    } else {
        spec_four_char_code(s.drop_last()) * 256 + s.last() as int
    }
}

/// `256` to the power `n`.
pub open spec fn pow256(n: nat) -> int
    decreases n,
{
    if n == 0 {
        1
    } else {
        256 * pow256((n - 1) as nat)
    }
}

/// The signature under which this library registers its hotkeys: `'htrs'`.
pub const HOTKEY_SIGNATURE: u32 = 0x6874_7273;

/// Computes the signature `'htrs'` from its four characters.
pub fn hotkey_signature() -> (r: u32)
    ensures
        r == HOTKEY_SIGNATURE,
        r == spec_four_char_code("htrs"@),
{
    let s = "htrs";
    proof {
        reveal_strlit("htrs");
    }
    let mut res: u32 = 0;
    for c in it: s.chars()
        invariant
            s@ == seq!['h', 't', 'r', 's'],
            it.seq() == s@,
            it.index() <= 4,
            res == spec_four_char_code(s@.take(it.index() as int)),
            res < pow256(it.index() as nat),
    {
        let ghost k: int = it.index() as int;
        assert(c == s@[k]);
        assert(s@.take(k + 1).drop_last() =~= s@.take(k));
        assert(res < 0x100_0000) by {
            reveal_with_fuel(pow256, 4);
        }
        assert((c as u32) < 0x100);
        let shifted: u32 = res << 8;
        assert(shifted == res * 256) by (bit_vector)
            requires
                res < 0x100_0000,
                shifted == res << 8,
        ;
        res = shifted + c as u32;
    }
    assert(s@.take(4) =~= s@);
    let ghost t: Seq<char> = s@;
    assert(t.drop_last() =~= seq!['h', 't', 'r']);
    assert(t.drop_last().drop_last() =~= seq!['h', 't']);
    assert(t.drop_last().drop_last().drop_last() =~= seq!['h']);
    assert(t.drop_last().drop_last().drop_last().drop_last() =~= Seq::<char>::empty());
    assert(res == 0x6874_7273) by {
        reveal_with_fuel(spec_four_char_code, 5);
    }
    res
}

} // verus!
