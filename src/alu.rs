use vstd::prelude::*;

use crate::registers::Flags;

verus! {

/// The result of an 8-bit arithmetic or logic operation: the value and the flags.
#[derive(Clone, Copy, PartialEq, Eq, Structural, Debug)]
pub struct AluOut {
    pub value: u8,
    pub flags: Flags,
}

/// The result of a 16-bit addition: the value and the flags.
#[derive(Clone, Copy, PartialEq, Eq, Structural, Debug)]
pub struct AluOut16 {
    pub value: u16,
    pub flags: Flags,
}

pub open spec fn bit_of(c: bool) -> int {
    if c {
        1
    } else {
        0
    }
}

/// `a + n + carry_in` on 8 bits.
pub open spec fn add_spec(a: u8, n: u8, cin: bool) -> AluOut {
    let sum = a as int + n as int + bit_of(cin);
    let v = (sum % 256) as u8;
    AluOut {
        value: v,
        flags: Flags {
            zero: v == 0,
            neg: false,
            half: a as int % 16 + n as int % 16 + bit_of(cin) > 15,
            carry: sum > 255,
        },
    }
}

/// `a - n - carry_in` on 8 bits.
pub open spec fn sub_spec(a: u8, n: u8, cin: bool) -> AluOut {
    let diff = a as int - n as int - bit_of(cin);
    let v = (diff % 256) as u8;
    AluOut {
        value: v,
        flags: Flags {
            zero: v == 0,
            neg: true,
            half: a as int % 16 < n as int % 16 + bit_of(cin),
            carry: diff < 0,
        },
    }
}

pub open spec fn and_spec(a: u8, n: u8) -> AluOut {
    let v = a & n;
    AluOut { value: v, flags: Flags { zero: v == 0, neg: false, half: true, carry: false } }
}

pub open spec fn or_spec(a: u8, n: u8) -> AluOut {
    let v = a | n;
    AluOut { value: v, flags: Flags { zero: v == 0, neg: false, half: false, carry: false } }
}

pub open spec fn xor_spec(a: u8, n: u8) -> AluOut {
    let v = a ^ n;
    AluOut { value: v, flags: Flags { zero: v == 0, neg: false, half: false, carry: false } }
}

/// Increment; Carry keeps the value it had in `f`.
pub open spec fn inc_spec(v: u8, f: Flags) -> AluOut {
    let r = ((v as int + 1) % 256) as u8;
    AluOut {
        value: r,
        flags: Flags { zero: r == 0, neg: false, half: v as int % 16 == 15, carry: f.carry },
    }
}

/// Decrement; Carry keeps the value it had in `f`.
pub open spec fn dec_spec(v: u8, f: Flags) -> AluOut {
    let r = ((v as int - 1) % 256) as u8;
    AluOut {
        value: r,
        flags: Flags { zero: r == 0, neg: true, half: v as int % 16 == 0, carry: f.carry },
    }
}

/// `hl + n` on 16 bits: Zero cleared, HalfCarry out of bit 11, Carry out of
/// bit 15; Negate keeps its value in `f`.
pub open spec fn add16_spec(hl: u16, n: u16, f: Flags) -> AluOut16 {
    let sum = hl as int + n as int;
    AluOut16 {
        value: (sum % 65536) as u16,
        flags: Flags {
            zero: false,
            neg: f.neg,
            half: hl as int % 4096 + n as int % 4096 > 4095,
            carry: sum > 65535,
        },
    }
}

/// The signed value of a displacement byte.
pub open spec fn signed8(e: u8) -> int {
    if e < 128 {
        e as int
    } else {
        e as int - 256
    }
}

/// `sp + e` with `e` a signed displacement; the flags come from the unsigned
/// addition of the low byte.
pub open spec fn add_sp_spec(sp: u16, e: u8) -> AluOut16 {
    AluOut16 {
        value: ((sp as int + signed8(e)) % 65536) as u16,
        flags: Flags {
            zero: false,
            neg: false,
            half: sp as int % 16 + e as int % 16 > 15,
            carry: sp as int % 256 + e as int > 255,
        },
    }
}

/// The flags of a rotate or shift: Zero from the result, Carry from the bit
/// shifted out.
pub open spec fn shift_flags(r: u8, out: bool) -> Flags {
    Flags { zero: r == 0, neg: false, half: false, carry: out }
}

/// Rotate left circular: bit 7 goes to bit 0 and to Carry.
pub open spec fn rlc_spec(v: u8) -> AluOut {
    let r = (v << 1) | (v >> 7);
    AluOut { value: r, flags: shift_flags(r, v & 0x80 != 0) }
}

/// Rotate right circular: bit 0 goes to bit 7 and to Carry.
pub open spec fn rrc_spec(v: u8) -> AluOut {
    let r = (v >> 1) | (v << 7);
    AluOut { value: r, flags: shift_flags(r, v & 0x01 != 0) }
}

/// Rotate left through Carry.
pub open spec fn rl_spec(v: u8, cin: bool) -> AluOut {
    let r = (v << 1) | (if cin { 1u8 } else { 0u8 });
    AluOut { value: r, flags: shift_flags(r, v & 0x80 != 0) }
}

/// Rotate right through Carry.
pub open spec fn rr_spec(v: u8, cin: bool) -> AluOut {
    let r = (v >> 1) | (if cin { 0x80u8 } else { 0u8 });
    AluOut { value: r, flags: shift_flags(r, v & 0x01 != 0) }
}

/// Shift left; bit 0 becomes 0.
pub open spec fn sla_spec(v: u8) -> AluOut {
    let r = v << 1;
    AluOut { value: r, flags: shift_flags(r, v & 0x80 != 0) }
}

/// Shift right keeping the sign bit.
pub open spec fn sra_spec(v: u8) -> AluOut {
    let r = (v >> 1) | (v & 0x80);
    AluOut { value: r, flags: shift_flags(r, v & 0x01 != 0) }
}

/// Shift right; bit 7 becomes 0.
pub open spec fn srl_spec(v: u8) -> AluOut {
    let r = v >> 1;
    AluOut { value: r, flags: shift_flags(r, v & 0x01 != 0) }
}

/// Exchange of the two nibbles; Carry cleared.
pub open spec fn swap_spec(v: u8) -> AluOut {
    let r = (v >> 4) | (v << 4);
    AluOut { value: r, flags: shift_flags(r, false) }
}

/// Bit test: Zero when bit `b` of `v` is clear, Negate cleared, HalfCarry set,
/// Carry kept.
pub open spec fn bit_spec(b: u8, v: u8, f: Flags) -> Flags {
    Flags { zero: (v >> b) & 1 == 0, neg: false, half: true, carry: f.carry }
}

pub open spec fn res_spec(b: u8, v: u8) -> u8 {
    v & !(1u8 << b)
}

pub open spec fn set_spec(b: u8, v: u8) -> u8 {
    v | (1u8 << b)
}

/// Decimal adjustment of the accumulator after a BCD addition or subtraction.
pub open spec fn daa_spec(a: u8, f: Flags) -> AluOut {
    if !f.neg {
        let hi = f.carry || a > 0x99;
        let a1 = if hi {
            ((a as int + 0x60) % 256) as u8
        } else {
            a
        };
        let a2 = if f.half || a1 & 0x0F > 0x09 {
            ((a1 as int + 0x06) % 256) as u8
        } else {
            a1
        };
        AluOut { value: a2, flags: Flags { zero: a2 == 0, neg: false, half: false, carry: hi } }
    } else {
        let a1 = if f.carry {
            ((a as int - 0x60) % 256) as u8
        } else {
            a
        };
        let a2 = if f.half {
            ((a1 as int - 0x06) % 256) as u8
        } else {
            a1
        };
        AluOut {
            value: a2,
            flags: Flags { zero: a2 == 0, neg: true, half: false, carry: f.carry },
        }
    }
}

proof fn lemma_low_nibble()
    ensures
        forall|a: u8| #[trigger] (a & 0x0F) == a % 16,
        forall|a: u16| #[trigger] (a & 0x0FFF) == a % 4096,
        forall|a: u16| #[trigger] (a & 0x000F) == a % 16,
        forall|a: u16| #[trigger] (a & 0x00FF) == a % 256,
{
    assert forall|a: u8| #[trigger] (a & 0x0F) == a % 16 by {
        assert(a & 0x0F == a % 16) by (bit_vector);
    }
    assert forall|a: u16| #[trigger] (a & 0x0FFF) == a % 4096 by {
        assert(a & 0x0FFF == a % 4096) by (bit_vector);
    }
    assert forall|a: u16| #[trigger] (a & 0x000F) == a % 16 by {
        assert(a & 0x000F == a % 16) by (bit_vector);
    }
    assert forall|a: u16| #[trigger] (a & 0x00FF) == a % 256 by {
        assert(a & 0x00FF == a % 256) by (bit_vector);
    }
}

pub fn alu_add(a: u8, n: u8) -> (r: AluOut)
    ensures
        r == add_spec(a, n, false),
{
    alu_adc(a, n, false)
}

/// Addition with the carry flag as a carry-in.
pub fn alu_adc(a: u8, n: u8, carry: bool) -> (r: AluOut)
    ensures
        r == add_spec(a, n, carry),
{
    proof {
        lemma_low_nibble();
    }
    let c: u16 = if carry {
        1
    } else {
        0
    };
    let sum: u16 = a as u16 + n as u16 + c;
    let v = (sum & 0xFF) as u8;
    let half = (a & 0x0F) as u16 + (n & 0x0F) as u16 + c > 0x0F;
    AluOut { value: v, flags: Flags { zero: v == 0, neg: false, half: half, carry: sum > 0xFF } }
}

pub fn alu_sub(a: u8, n: u8) -> (r: AluOut)
    ensures
        r == sub_spec(a, n, false),
{
    alu_sbc(a, n, false)
}

/// Subtraction with the carry flag as a borrow-in.
pub fn alu_sbc(a: u8, n: u8, carry: bool) -> (r: AluOut)
    ensures
        r == sub_spec(a, n, carry),
{
    proof {
        lemma_low_nibble();
    }
    let c: u8 = if carry {
        1
    } else {
        0
    };
    let v = a.wrapping_sub(n).wrapping_sub(c);
    let half = ((a & 0x0F) as u16) < (n & 0x0F) as u16 + c as u16;
    let borrow = (a as u16) < n as u16 + c as u16;
    AluOut { value: v, flags: Flags { zero: v == 0, neg: true, half: half, carry: borrow } }
}

pub fn alu_and(a: u8, n: u8) -> (r: AluOut)
    ensures
        r == and_spec(a, n),
{
    let v = a & n;
    AluOut { value: v, flags: Flags { zero: v == 0, neg: false, half: true, carry: false } }
}

pub fn alu_or(a: u8, n: u8) -> (r: AluOut)
    ensures
        r == or_spec(a, n),
{
    let v = a | n;
    AluOut { value: v, flags: Flags { zero: v == 0, neg: false, half: false, carry: false } }
}

pub fn alu_xor(a: u8, n: u8) -> (r: AluOut)
    ensures
        r == xor_spec(a, n),
{
    let v = a ^ n;
    AluOut { value: v, flags: Flags { zero: v == 0, neg: false, half: false, carry: false } }
}

pub fn alu_inc(v: u8, f: Flags) -> (r: AluOut)
    ensures
        r == inc_spec(v, f),
{
    proof {
        lemma_low_nibble();
    }
    let r = v.wrapping_add(1);
    AluOut {
        value: r,
        flags: Flags { zero: r == 0, neg: false, half: v & 0x0F == 0x0F, carry: f.carry },
    }
}

pub fn alu_dec(v: u8, f: Flags) -> (r: AluOut)
    ensures
        r == dec_spec(v, f),
{
    proof {
        lemma_low_nibble();
    }
    let r = v.wrapping_sub(1);
    AluOut {
        value: r,
        flags: Flags { zero: r == 0, neg: true, half: v & 0x0F == 0, carry: f.carry },
    }
}

/// 16-bit addition into HL.
pub fn alu_addnn(hl: u16, n: u16, f: Flags) -> (r: AluOut16)
    ensures
        r == add16_spec(hl, n, f),
{
    proof {
        lemma_low_nibble();
    }
    let sum: u32 = hl as u32 + n as u32;
    let half = (hl & 0x0FFF) as u32 + (n & 0x0FFF) as u32 > 0x0FFF;
    AluOut16 {
        value: hl.wrapping_add(n),
        flags: Flags { zero: false, neg: f.neg, half: half, carry: sum > 0xFFFF },
    }
}

/// Adds a signed displacement to the stack pointer.
pub fn alu_add_sp(sp: u16, e: u8) -> (r: AluOut16)
    ensures
        r == add_sp_spec(sp, e),
{
    proof {
        lemma_low_nibble();
    }
    let value = if e < 128 {
        sp.wrapping_add(e as u16)
    } else {
        sp.wrapping_sub(256 - e as u16)
    };
    let half = (sp & 0x000F) + (e & 0x0F) as u16 > 0x0F;
    let carry = (sp & 0x00FF) + e as u16 > 0xFF;
    AluOut16 { value: value, flags: Flags { zero: false, neg: false, half: half, carry: carry } }
}

pub fn alu_rlc(v: u8) -> (r: AluOut)
    ensures
        r == rlc_spec(v),
{
    let r = (v << 1) | (v >> 7);
    AluOut { value: r, flags: Flags { zero: r == 0, neg: false, half: false, carry: v & 0x80 != 0 } }
}

pub fn alu_rrc(v: u8) -> (r: AluOut)
    ensures
        r == rrc_spec(v),
{
    let r = (v >> 1) | (v << 7);
    AluOut { value: r, flags: Flags { zero: r == 0, neg: false, half: false, carry: v & 0x01 != 0 } }
}

pub fn alu_rl(v: u8, carry: bool) -> (r: AluOut)
    ensures
        r == rl_spec(v, carry),
{
    let r = (v << 1) | (if carry { 1u8 } else { 0u8 });
    AluOut { value: r, flags: Flags { zero: r == 0, neg: false, half: false, carry: v & 0x80 != 0 } }
}

pub fn alu_rr(v: u8, carry: bool) -> (r: AluOut)
    ensures
        r == rr_spec(v, carry),
{
    let r = (v >> 1) | (if carry { 0x80u8 } else { 0u8 });
    AluOut { value: r, flags: Flags { zero: r == 0, neg: false, half: false, carry: v & 0x01 != 0 } }
}

pub fn alu_sla(v: u8) -> (r: AluOut)
    ensures
        r == sla_spec(v),
{
    let r = v << 1;
    AluOut { value: r, flags: Flags { zero: r == 0, neg: false, half: false, carry: v & 0x80 != 0 } }
}

pub fn alu_sra(v: u8) -> (r: AluOut)
    ensures
        r == sra_spec(v),
{
    let r = (v >> 1) | (v & 0x80);
    AluOut { value: r, flags: Flags { zero: r == 0, neg: false, half: false, carry: v & 0x01 != 0 } }
}

pub fn alu_srl(v: u8) -> (r: AluOut)
    ensures
        r == srl_spec(v),
{
    let r = v >> 1;
    AluOut { value: r, flags: Flags { zero: r == 0, neg: false, half: false, carry: v & 0x01 != 0 } }
}

pub fn alu_swap(v: u8) -> (r: AluOut)
    ensures
        r == swap_spec(v),
{
    let r = (v >> 4) | (v << 4);
    AluOut { value: r, flags: Flags { zero: r == 0, neg: false, half: false, carry: false } }
}

pub fn alu_bit(b: u8, v: u8, f: Flags) -> (r: Flags)
    requires
        b < 8,
    ensures
        r == bit_spec(b, v, f),
{
    Flags { zero: (v >> b) & 1 == 0, neg: false, half: true, carry: f.carry }
}

/// `v` with bit `b` cleared.
pub fn alu_res(b: u8, v: u8) -> (r: u8)
    requires
        b < 8,
    ensures
        r == res_spec(b, v),
{
    v & !(1u8 << b)
}

/// `v` with bit `b` set.
pub fn alu_set(b: u8, v: u8) -> (r: u8)
    requires
        b < 8,
    ensures
        r == set_spec(b, v),
{
    v | (1u8 << b)
}

pub fn alu_daa(a: u8, f: Flags) -> (r: AluOut)
    ensures
        r == daa_spec(a, f),
{
    let mut v = a;
    let mut carry = f.carry;
    if !f.neg {
        if f.carry || v > 0x99 {
            v = v.wrapping_add(0x60);
            carry = true;
        }
        if f.half || (v & 0x0F) > 0x09 {
            v = v.wrapping_add(0x06);
        }
    } else {
        if f.carry {
            v = v.wrapping_sub(0x60);
        }
        if f.half {
            v = v.wrapping_sub(0x06);
        }
    }
    AluOut { value: v, flags: Flags { zero: v == 0, neg: f.neg, half: false, carry: carry } }
}

/// Adding `n` and then subtracting `n` gives back the original accumulator.
pub proof fn lemma_add_then_sub_restores(a: u8, n: u8)
    ensures
        sub_spec(add_spec(a, n, false).value, n, false).value == a,
{
    let s = a as int + n as int;
    if s > 255 {
        assert(s % 256 == s - 256);
    } else {
        assert(s % 256 == s);
    }
    let t = add_spec(a, n, false).value as int - n as int;
    if t < 0 {
        assert(t % 256 == t + 256);
    } else {
        assert(t % 256 == t);
    }
}

/// The Zero flag is set exactly when the 8-bit result is 0, for every
/// operation whose Zero flag comes from its result.
pub proof fn lemma_zero_flag_iff_zero_result(a: u8, n: u8, c: bool, f: Flags)
    ensures
        add_spec(a, n, c).flags.zero <==> add_spec(a, n, c).value == 0,
        sub_spec(a, n, c).flags.zero <==> sub_spec(a, n, c).value == 0,
        and_spec(a, n).flags.zero <==> and_spec(a, n).value == 0,
        or_spec(a, n).flags.zero <==> or_spec(a, n).value == 0,
        xor_spec(a, n).flags.zero <==> xor_spec(a, n).value == 0,
        inc_spec(a, f).flags.zero <==> inc_spec(a, f).value == 0,
        dec_spec(a, f).flags.zero <==> dec_spec(a, f).value == 0,
        rlc_spec(a).flags.zero <==> rlc_spec(a).value == 0,
        rrc_spec(a).flags.zero <==> rrc_spec(a).value == 0,
        rl_spec(a, c).flags.zero <==> rl_spec(a, c).value == 0,
        rr_spec(a, c).flags.zero <==> rr_spec(a, c).value == 0,
        sla_spec(a).flags.zero <==> sla_spec(a).value == 0,
        sra_spec(a).flags.zero <==> sra_spec(a).value == 0,
        srl_spec(a).flags.zero <==> srl_spec(a).value == 0,
        swap_spec(a).flags.zero <==> swap_spec(a).value == 0,
        daa_spec(a, f).flags.zero <==> daa_spec(a, f).value == 0,
{
}

/// Carry after an addition is the overflow of the 9-bit sum; after a
/// subtraction it is the borrow, `a < n`.
pub proof fn lemma_carry_flag(a: u8, n: u8)
    ensures
        add_spec(a, n, false).flags.carry <==> (a as u16 + n as u16) > 0xFF,
        sub_spec(a, n, false).flags.carry <==> a < n,
{
}

/// HalfCarry after an addition is the carry out of the low nibble.
pub proof fn lemma_half_carry_add(a: u8, n: u8)
    ensures
        add_spec(a, n, false).flags.half <==> (a & 0x0F) + (n & 0x0F) > 0x0F,
{
    lemma_low_nibble();
}

/// Rotating left circular and then right circular gives back the byte.
pub proof fn lemma_rotate_round_trip(v: u8)
    ensures
        rrc_spec(rlc_spec(v).value).value == v,
{
    let r = (v << 1) | (v >> 7);
    assert(r == (v << 1) | (v >> 7));
    assert(((r >> 1) | (r << 7)) == v) by (bit_vector)
        requires
            r == (v << 1) | (v >> 7),
    ;
}

} // verus!
