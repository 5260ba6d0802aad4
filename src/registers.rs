use vstd::prelude::*;

use crate::instructions::{OP16, OP8};

verus! {

/// The four condition flags kept in the upper nibble of register F.
#[derive(Clone, Copy, PartialEq, Eq, Structural, Debug)]
pub struct Flags {
    pub zero: bool,
    pub neg: bool,
    pub half: bool,
    pub carry: bool,
}

/// The flag byte that holds `fl`: Z in bit 7, N in bit 6, H in bit 5, C in bit 4,
/// low nibble clear.
pub open spec fn flags_byte(fl: Flags) -> u8 {
    (if fl.zero { 0x80u8 } else { 0u8 }) | (if fl.neg { 0x40u8 } else { 0u8 }) | (if fl.half {
        0x20u8
    } else {
        0u8
    }) | (if fl.carry { 0x10u8 } else { 0u8 })
}

/// The flags that a flag byte holds.
pub open spec fn flags_of(f: u8) -> Flags {
    Flags { zero: f & 0x80 != 0, neg: f & 0x40 != 0, half: f & 0x20 != 0, carry: f & 0x10 != 0 }
}

proof fn lemma_flags_byte_bits(z: bool, n: bool, h: bool, c: bool)
    by (bit_vector)
    ensures
        ({
            let f = (if z { 0x80u8 } else { 0u8 }) | (if n { 0x40u8 } else { 0u8 }) | (if h {
                0x20u8
            } else {
                0u8
            }) | (if c { 0x10u8 } else { 0u8 });
            &&& (f & 0x80 != 0) == z
            &&& (f & 0x40 != 0) == n
            &&& (f & 0x20 != 0) == h
            &&& (f & 0x10 != 0) == c
            &&& f & 0x0F == 0
        }),
{
}

/// Packing flags into a byte and reading them back gives the same flags, and
/// the low nibble of the byte is clear.
pub proof fn lemma_flags_round_trip(fl: Flags)
    ensures
        flags_of(flags_byte(fl)) == fl,
        flags_byte(fl) & 0x0F == 0,
{
    lemma_flags_byte_bits(fl.zero, fl.neg, fl.half, fl.carry);
}


/// A register pair: `hi` in the upper byte, `lo` in the lower.
pub open spec fn pair(hi: u8, lo: u8) -> u16 {
    ((hi as u16) << 8) | (lo as u16)
}

/// The upper byte of a 16-bit value.
pub open spec fn hi_byte(v: u16) -> u8 {
    (v >> 8) as u8
}

/// The lower byte of a 16-bit value.
pub open spec fn lo_byte(v: u16) -> u8 {
    (v & 0xFF) as u8
}

/// Splitting a 16-bit value into bytes and joining them back is the identity,
/// in both directions.
pub proof fn lemma_pair_round_trip()
    by (bit_vector)
    ensures
        forall|v: u16| #[trigger] (((((v >> 8) as u8) as u16) << 8) | (((v & 0xFF) as u8) as u16)) == v,
        forall|hi: u8, lo: u8| #[trigger] ((((((hi as u16) << 8) | (lo as u16)) >> 8) as u8)) == hi,
        forall|hi: u8, lo: u8| #[trigger] (((((hi as u16) << 8) | (lo as u16)) & 0xFF) as u8) == lo,
{
}

proof fn lemma_flag_mask(f: u8, m: u8)
    by (bit_vector)
    requires
        m == 0x80 || m == 0x40 || m == 0x20 || m == 0x10,
    ensures
        (f | m) & m != 0,
        (f & !m) & m == 0,
        m != 0x80 ==> (f | m) & 0x80 == f & 0x80 && (f & !m) & 0x80 == f & 0x80,
        m != 0x40 ==> (f | m) & 0x40 == f & 0x40 && (f & !m) & 0x40 == f & 0x40,
        m != 0x20 ==> (f | m) & 0x20 == f & 0x20 && (f & !m) & 0x20 == f & 0x20,
        m != 0x10 ==> (f | m) & 0x10 == f & 0x10 && (f & !m) & 0x10 == f & 0x10,
        (f | m) & 0x0F == f & 0x0F,
        (f & !m) & 0x0F == f & 0x0F,
{
}

/// The register file: eight 8-bit registers, the program counter and the stack
/// pointer. F holds the flags in its upper nibble; its lower nibble stays clear.
#[derive(Clone, Copy, PartialEq, Eq, Structural, Debug)]
pub struct Registers {
    pub a: u8,
    pub b: u8,
    pub c: u8,
    pub d: u8,
    pub e: u8,
    pub h: u8,
    pub l: u8,
    pub f: u8,
    pub pc: u16,
    pub sp: u16,
}

impl Registers {
    /// The flags register F holds no bits below bit 4.
    pub open spec fn wf(&self) -> bool {
        self.f & 0x0F == 0
    }

    /// The flags that F holds.
    pub open spec fn flags_spec(&self) -> Flags {
        flags_of(self.f)
    }

    pub open spec fn bc_spec(&self) -> u16 {
        pair(self.b, self.c)
    }

    pub open spec fn de_spec(&self) -> u16 {
        pair(self.d, self.e)
    }

    pub open spec fn hl_spec(&self) -> u16 {
        pair(self.h, self.l)
    }

    pub open spec fn af_spec(&self) -> u16 {
        pair(self.a, self.f)
    }

    /// The register file with BC set to `v`.
    pub open spec fn with_bc(self, v: u16) -> Registers {
        Registers { b: hi_byte(v), c: lo_byte(v), ..self }
    }

    pub open spec fn with_de(self, v: u16) -> Registers {
        Registers { d: hi_byte(v), e: lo_byte(v), ..self }
    }

    pub open spec fn with_hl(self, v: u16) -> Registers {
        Registers { h: hi_byte(v), l: lo_byte(v), ..self }
    }

    /// The register file with AF set to `v`; the low nibble of F is dropped.
    pub open spec fn with_af(self, v: u16) -> Registers {
        Registers { a: hi_byte(v), f: (v & 0xF0) as u8, ..self }
    }

    /// The register file with the flags set to `fl`.
    pub open spec fn with_flags(self, fl: Flags) -> Registers {
        Registers { f: flags_byte(fl), ..self }
    }

    pub open spec fn get8_spec(&self, r: OP8) -> u8 {
        match r {
            OP8::A => self.a,
            OP8::B => self.b,
            OP8::C => self.c,
            OP8::D => self.d,
            OP8::E => self.e,
            OP8::H => self.h,
            OP8::L => self.l,
        }
    }

    pub open spec fn with8(self, r: OP8, v: u8) -> Registers {
        match r {
            OP8::A => Registers { a: v, ..self },
            OP8::B => Registers { b: v, ..self },
            OP8::C => Registers { c: v, ..self },
            OP8::D => Registers { d: v, ..self },
            OP8::E => Registers { e: v, ..self },
            OP8::H => Registers { h: v, ..self },
            OP8::L => Registers { l: v, ..self },
        }
    }

    pub open spec fn get16_spec(&self, r: OP16) -> u16 {
        match r {
            OP16::BC => self.bc_spec(),
            OP16::DE => self.de_spec(),
            OP16::HL => self.hl_spec(),
            OP16::SP => self.sp,
            OP16::PC => self.pc,
        }
    }

    pub open spec fn with16(self, r: OP16, v: u16) -> Registers {
        match r {
            OP16::BC => self.with_bc(v),
            OP16::DE => self.with_de(v),
            OP16::HL => self.with_hl(v),
            OP16::SP => Registers { sp: v, ..self },
            OP16::PC => Registers { pc: v, ..self },
        }
    }

    /// The power-on register values.
    pub fn new() -> (r: Registers)
        ensures
            r == (Registers {
                a: 0x01,
                b: 0x00,
                c: 0x13,
                d: 0x00,
                e: 0xD8,
                h: 0x01,
                l: 0x4D,
                f: 0xB0,
                pc: 0x0100,
                sp: 0xFFFE,
            }),
            r.wf(),
    {
        let r = Registers {
            a: 0x01,
            b: 0,
            c: 0x13,
            d: 0,
            e: 0xd8,
            h: 0x01,
            l: 0x4d,
            f: 0xB0,
            pc: 0x0100,
            sp: 0xfffe,
        };
        assert(0xB0u8 & 0x0F == 0) by (bit_vector);
        r
    }

    pub fn get_zero(&self) -> (r: bool)
        ensures
            r == self.flags_spec().zero,
    {
        self.f & 0x80 != 0
    }

    pub fn get_neg(&self) -> (r: bool)
        ensures
            r == self.flags_spec().neg,
    {
        self.f & 0x40 != 0
    }

    pub fn get_half(&self) -> (r: bool)
        ensures
            r == self.flags_spec().half,
    {
        self.f & 0x20 != 0
    }

    pub fn get_carry(&self) -> (r: bool)
        ensures
            r == self.flags_spec().carry,
    {
        self.f & 0x10 != 0
    }

    fn set_mask(&mut self, mask: u8, set: bool)
        requires
            mask == 0x80 || mask == 0x40 || mask == 0x20 || mask == 0x10,
        ensures
            *final(self) == (Registers { f: final(self).f, ..*old(self) }),
            final(self).f & mask != 0 <==> set,
            forall|m: u8|
                (m == 0x80 || m == 0x40 || m == 0x20 || m == 0x10 || m == 0x0F) && m != mask
                    ==> #[trigger] (final(self).f & m) == old(self).f & m,
    {
        proof {
            lemma_flag_mask(self.f, mask);
        }
        if set {
            self.f = self.f | mask;
        } else {
            self.f = self.f & !mask;
        }
    }

    /// Sets or clears the Zero flag; every other bit keeps its value.
    pub fn set_zero(&mut self, set: bool)
        ensures
            *final(self) == (Registers { f: final(self).f, ..*old(self) }),
            final(self).flags_spec() == (Flags { zero: set, ..old(self).flags_spec() }),
            final(self).f & 0x0F == old(self).f & 0x0F,
    {
        self.set_mask(0x80, set);
        assert(final(self).f & 0x40 == old(self).f & 0x40);
        assert(final(self).f & 0x20 == old(self).f & 0x20);
        assert(final(self).f & 0x10 == old(self).f & 0x10);
        assert(final(self).f & 0x0F == old(self).f & 0x0F);
    }

    /// Sets or clears the Negate flag; every other bit keeps its value.
    pub fn set_neg(&mut self, set: bool)
        ensures
            *final(self) == (Registers { f: final(self).f, ..*old(self) }),
            final(self).flags_spec() == (Flags { neg: set, ..old(self).flags_spec() }),
            final(self).f & 0x0F == old(self).f & 0x0F,
    {
        self.set_mask(0x40, set);
        assert(final(self).f & 0x80 == old(self).f & 0x80);
        assert(final(self).f & 0x20 == old(self).f & 0x20);
        assert(final(self).f & 0x10 == old(self).f & 0x10);
        assert(final(self).f & 0x0F == old(self).f & 0x0F);
    }

    /// Sets or clears the HalfCarry flag; every other bit keeps its value.
    pub fn set_half(&mut self, set: bool)
        ensures
            *final(self) == (Registers { f: final(self).f, ..*old(self) }),
            final(self).flags_spec() == (Flags { half: set, ..old(self).flags_spec() }),
            final(self).f & 0x0F == old(self).f & 0x0F,
    {
        self.set_mask(0x20, set);
        assert(final(self).f & 0x80 == old(self).f & 0x80);
        assert(final(self).f & 0x40 == old(self).f & 0x40);
        assert(final(self).f & 0x10 == old(self).f & 0x10);
        assert(final(self).f & 0x0F == old(self).f & 0x0F);
    }

    /// Sets or clears the Carry flag; every other bit keeps its value.
    pub fn set_carry(&mut self, set: bool)
        ensures
            *final(self) == (Registers { f: final(self).f, ..*old(self) }),
            final(self).flags_spec() == (Flags { carry: set, ..old(self).flags_spec() }),
            final(self).f & 0x0F == old(self).f & 0x0F,
    {
        self.set_mask(0x10, set);
        assert(final(self).f & 0x80 == old(self).f & 0x80);
        assert(final(self).f & 0x40 == old(self).f & 0x40);
        assert(final(self).f & 0x20 == old(self).f & 0x20);
        assert(final(self).f & 0x0F == old(self).f & 0x0F);
    }

    /// The four flags.
    pub fn flags(&self) -> (r: Flags)
        ensures
            r == self.flags_spec(),
    {
        Flags {
            zero: self.f & 0x80 != 0,
            neg: self.f & 0x40 != 0,
            half: self.f & 0x20 != 0,
            carry: self.f & 0x10 != 0,
        }
    }

    /// Replaces all four flags at once.
    pub fn set_flags(&mut self, fl: Flags)
        ensures
            *final(self) == old(self).with_flags(fl),
            final(self).flags_spec() == fl,
            final(self).wf(),
    {
        proof {
            lemma_flags_round_trip(fl);
        }
        self.f = (if fl.zero { 0x80u8 } else { 0u8 }) | (if fl.neg { 0x40u8 } else { 0u8 }) | (
        if fl.half {
            0x20u8
        } else {
            0u8
        }) | (if fl.carry { 0x10u8 } else { 0u8 });
    }

    pub fn get_bc(&self) -> (r: u16)
        ensures
            r == self.bc_spec(),
    {
        ((self.b as u16) << 8) | (self.c as u16)
    }

    pub fn set_bc(&mut self, val: u16)
        ensures
            *final(self) == old(self).with_bc(val),
            final(self).bc_spec() == val,
    {
        proof {
            lemma_pair_round_trip();
        }
        self.b = (val >> 8) as u8;
        self.c = (val & 0xFF) as u8;
    }

    pub fn get_de(&self) -> (r: u16)
        ensures
            r == self.de_spec(),
    {
        ((self.d as u16) << 8) | (self.e as u16)
    }

    pub fn set_de(&mut self, val: u16)
        ensures
            *final(self) == old(self).with_de(val),
            final(self).de_spec() == val,
    {
        proof {
            lemma_pair_round_trip();
        }
        self.d = (val >> 8) as u8;
        self.e = (val & 0xFF) as u8;
    }

    pub fn get_hl(&self) -> (r: u16)
        ensures
            r == self.hl_spec(),
    {
        ((self.h as u16) << 8) | (self.l as u16)
    }

    /// Returns HL and then decrements it, wrapping at zero.
    pub fn get_hld(&mut self) -> (r: u16)
        ensures
            r == old(self).hl_spec(),
            *final(self) == old(self).with_hl(old(self).hl_spec().wrapping_sub(1)),
    {
        let ret = self.get_hl();
        self.set_hl(ret.wrapping_sub(1));
        ret
    }

    pub fn set_hl(&mut self, val: u16)
        ensures
            *final(self) == old(self).with_hl(val),
            final(self).hl_spec() == val,
    {
        proof {
            lemma_pair_round_trip();
        }
        self.h = (val >> 8) as u8;
        self.l = (val & 0xFF) as u8;
    }

    /// Sets A and F from `val`; the low nibble of F is always cleared.
    pub fn set_af(&mut self, val: u16)
        ensures
            *final(self) == old(self).with_af(val),
            final(self).wf(),
    {
        assert(((val & 0xF0) as u8) & 0x0F == 0) by (bit_vector);
        self.a = (val >> 8) as u8;
        self.f = (val & 0xF0) as u8;
    }

    pub fn get_af(&self) -> (r: u16)
        ensures
            r == self.af_spec(),
    {
        ((self.a as u16) << 8) | (self.f as u16)
    }

    pub fn get8(&self, r: OP8) -> (v: u8)
        ensures
            v == self.get8_spec(r),
    {
        match r {
            OP8::A => self.a,
            OP8::B => self.b,
            OP8::C => self.c,
            OP8::D => self.d,
            OP8::E => self.e,
            OP8::H => self.h,
            OP8::L => self.l,
        }
    }

    pub fn set8(&mut self, r: OP8, v: u8)
        ensures
            *final(self) == old(self).with8(r, v),
    {
        match r {
            OP8::A => self.a = v,
            OP8::B => self.b = v,
            OP8::C => self.c = v,
            OP8::D => self.d = v,
            OP8::E => self.e = v,
            OP8::H => self.h = v,
            OP8::L => self.l = v,
        }
    }

    pub fn get16(&self, r: OP16) -> (v: u16)
        ensures
            v == self.get16_spec(r),
    {
        match r {
            OP16::BC => self.get_bc(),
            OP16::DE => self.get_de(),
            OP16::HL => self.get_hl(),
            OP16::SP => self.sp,
            OP16::PC => self.pc,
        }
    }

    pub fn set16(&mut self, r: OP16, v: u16)
        ensures
            *final(self) == old(self).with16(r, v),
    {
        match r {
            OP16::BC => self.set_bc(v),
            OP16::DE => self.set_de(v),
            OP16::HL => self.set_hl(v),
            OP16::SP => self.sp = v,
            OP16::PC => self.pc = v,
        }
    }
}

} // verus!
