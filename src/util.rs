use vstd::prelude::*;

verus! {

/// Whether bit `bit` of `val` is set.
pub fn test_bit_u8(val: u8, bit: u8) -> (r: bool)
    requires
        bit < 8,
    ensures
        r == ((val >> bit) & 1 == 1),
{
    (val >> bit) & 1 == 1
}

/// Sets bit `bit` of `*val`, leaving the other bits as they were.
pub fn set_bit_u8(val: &mut u8, bit: u8)
    requires
        bit < 8,
    ensures
        *final(val) == *old(val) | (1u8 << bit),
{
    *val = *val | (1u8 << bit);
}

} // verus!
