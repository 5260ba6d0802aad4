use vstd::prelude::*;

use crate::alu::{
    add16_spec, add_sp_spec, add_spec, and_spec, bit_spec, daa_spec, dec_spec, inc_spec, or_spec,
    res_spec, rl_spec, rlc_spec, rr_spec, rrc_spec, set_spec, signed8, sla_spec, sra_spec,
    srl_spec, sub_spec, swap_spec, xor_spec, AluOut, alu_adc, alu_add, alu_add_sp, alu_addnn,
    alu_and, alu_bit, alu_daa, alu_dec, alu_inc, alu_or, alu_rl, alu_rlc, alu_rr, alu_rrc, alu_sbc,
    alu_sla, alu_sra, alu_srl, alu_sub, alu_swap, alu_xor, alu_res, alu_set,
};
use crate::instructions::{OP16, OP8};
use crate::mmu::{is_plain, lemma_plain_write_read, MmuState, MMU};
use crate::ppu::PpuState;
use crate::registers::{hi_byte, lemma_pair_round_trip, lo_byte, pair, Flags, Registers};

verus! {

/// What the processor holds, as the contracts see it.
pub struct CpuState {
    pub reg: Registers,
    pub bus: MmuState,
    pub halted: bool,
    /// The interrupt master enable, as DI, EI and RETI leave it.
    pub ime: bool,
}

/// Why an instruction could not be executed.
#[derive(Clone, Copy, PartialEq, Eq, Structural, Debug)]
pub enum Fault {
    /// The byte at `pc` is no opcode of the primary table.
    UnknownOpcode { op: u8, pc: u16 },
}

/// The eleven bytes that the primary opcode table leaves undefined.
pub open spec fn undefined_opcode(op: u8) -> bool {
    op == 0xD3 || op == 0xDB || op == 0xDD || op == 0xE3 || op == 0xE4 || op == 0xEB || op == 0xEC
        || op == 0xED || op == 0xF4 || op == 0xFC || op == 0xFD
}

/// The register that operand field `i` names: B, C, D, E, H, L, then (HL)
/// (none), then A.
pub open spec fn r8(i: u8) -> Option<OP8> {
    if i == 0 {
        Some(OP8::B)
    } else if i == 1 {
        Some(OP8::C)
    } else if i == 2 {
        Some(OP8::D)
    } else if i == 3 {
        Some(OP8::E)
    } else if i == 4 {
        Some(OP8::H)
    } else if i == 5 {
        Some(OP8::L)
    } else if i == 6 {
        None
    } else {
        Some(OP8::A)
    }
}

/// The register pair that field `i` names in 16-bit loads and arithmetic.
pub open spec fn r16(i: u8) -> OP16 {
    if i == 0 {
        OP16::BC
    } else if i == 1 {
        OP16::DE
    } else if i == 2 {
        OP16::HL
    } else {
        OP16::SP
    }
}

/// `x` modulo 2^16, for `x` less than one period outside the range of `u16`.
pub open spec fn wrap16(x: int) -> u16 {
    if x > 0xFFFF {
        (x - 0x10000) as u16
    } else if x < 0 {
        (x + 0x10000) as u16
    } else {
        x as u16
    }
}

/// The result of rotate/shift number `k` of the extended table.
pub open spec fn rot_spec(k: u8, v: u8, c: bool) -> AluOut {
    if k == 0 {
        rlc_spec(v)
    } else if k == 1 {
        rrc_spec(v)
    } else if k == 2 {
        rl_spec(v, c)
    } else if k == 3 {
        rr_spec(v, c)
    } else if k == 4 {
        sla_spec(v)
    } else if k == 5 {
        sra_spec(v)
    } else if k == 6 {
        swap_spec(v)
    } else {
        srl_spec(v)
    }
}

impl CpuState {
    pub open spec fn wf(self) -> bool {
        self.reg.wf() && self.bus.wf()
    }

    pub open spec fn read(self, a: u16) -> u8 {
        self.bus.read(a)
    }

    pub open spec fn write(self, a: u16, v: u8) -> CpuState {
        CpuState { bus: self.bus.write(a, v), ..self }
    }

    pub open spec fn with_reg(self, r: Registers) -> CpuState {
        CpuState { reg: r, ..self }
    }

    pub open spec fn flags(self) -> Flags {
        self.reg.flags_spec()
    }

    pub open spec fn with_flags(self, f: Flags) -> CpuState {
        self.with_reg(self.reg.with_flags(f))
    }

    pub open spec fn with_pc(self, pc: u16) -> CpuState {
        self.with_reg(Registers { pc: pc, ..self.reg })
    }

    pub open spec fn with_sp(self, sp: u16) -> CpuState {
        self.with_reg(Registers { sp: sp, ..self.reg })
    }

    /// The state with PC moved on by `n` bytes.
    pub open spec fn skip(self, n: int) -> CpuState {
        self.with_pc(wrap16(self.reg.pc + n))
    }

    /// The byte operand at PC.
    pub open spec fn imm8(self) -> u8 {
        self.read(self.reg.pc)
    }

    /// The little-endian word operand at PC.
    pub open spec fn imm16(self) -> u16 {
        self.bus.read_word(self.reg.pc)
    }

    /// The value of operand field `i`: a register, or the byte at HL.
    pub open spec fn operand(self, i: u8) -> u8 {
        match r8(i) {
            Some(r) => self.reg.get8_spec(r),
            None => self.read(self.reg.hl_spec()),
        }
    }

    /// The state with operand field `i` set to `v`.
    pub open spec fn set_operand(self, i: u8, v: u8) -> CpuState {
        match r8(i) {
            Some(r) => self.with_reg(self.reg.with8(r, v)),
            None => self.write(self.reg.hl_spec(), v),
        }
    }

    /// Branch condition `cc`: NZ, Z, NC, C.
    pub open spec fn cond(self, cc: u8) -> bool {
        if cc == 0 {
            !self.flags().zero
        } else if cc == 1 {
            self.flags().zero
        } else if cc == 2 {
            !self.flags().carry
        } else {
            self.flags().carry
        }
    }

    /// Pushes `v`: the high byte at SP-1, the low byte at SP-2; SP ends at
    /// SP-2.
    pub open spec fn push(self, v: u16) -> CpuState {
        let sp1 = wrap16(self.reg.sp - 1);
        let sp2 = wrap16(self.reg.sp - 2);
        self.write(sp1, hi_byte(v)).write(sp2, lo_byte(v)).with_sp(sp2)
    }

    /// Pops a value: the low byte at SP, the high byte at SP+1; SP ends at
    /// SP+2.
    pub open spec fn pop(self) -> (u16, CpuState) {
        let lo = self.read(self.reg.sp);
        let hi = self.read(wrap16(self.reg.sp + 1));
        (pair(hi, lo), self.with_sp(wrap16(self.reg.sp + 2)))
    }

    /// A sets to the value and F to the flags of `out`.
    pub open spec fn with_a_out(self, out: AluOut) -> CpuState {
        self.with_reg(Registers { a: out.value, ..self.reg }.with_flags(out.flags))
    }

    /// Accumulator operation `k` (ADD, ADC, SUB, SBC, AND, XOR, OR, CP) with
    /// operand `n`.
    pub open spec fn alu_a(self, k: u8, n: u8) -> CpuState {
        let a = self.reg.a;
        let c = self.flags().carry;
        if k == 0 {
            self.with_a_out(add_spec(a, n, false))
        } else if k == 1 {
            self.with_a_out(add_spec(a, n, c))
        } else if k == 2 {
            self.with_a_out(sub_spec(a, n, false))
        } else if k == 3 {
            self.with_a_out(sub_spec(a, n, c))
        } else if k == 4 {
            self.with_a_out(and_spec(a, n))
        } else if k == 5 {
            self.with_a_out(xor_spec(a, n))
        } else if k == 6 {
            self.with_a_out(or_spec(a, n))
        } else {
            self.with_flags(sub_spec(a, n, false).flags)
        }
    }

    /// Opcodes 0x40-0x7F: register-to-register loads, and HALT at 0x76.
    pub open spec fn exec_load(self, op: u8) -> (CpuState, u8) {
        if op == 0x76 {
            (CpuState { halted: true, ..self }, 1)
        } else {
            let dst = (op >> 3u8) & 7;
            let src = op & 7;
            (self.set_operand(dst, self.operand(src)), if dst == 6 || src == 6 { 2 } else { 1 })
        }
    }

    /// Opcodes 0x80-0xBF: accumulator arithmetic on a register or (HL).
    pub open spec fn exec_alu(self, op: u8) -> (CpuState, u8) {
        let src = op & 7;
        (self.alu_a((op >> 3u8) & 7, self.operand(src)), if src == 6 { 2 } else { 1 })
    }

    /// The extended table, `op` being the byte after the 0xCB prefix (PC
    /// already past it): rotates and shifts, bit test, bit reset, bit set.
    pub open spec fn exec_cb(self, op: u8) -> (CpuState, u8) {
        let x = op >> 6u8;
        let y = (op >> 3u8) & 7;
        let z = op & 7;
        let v = self.operand(z);
        if x == 0 {
            let out = rot_spec(y, v, self.flags().carry);
            (self.set_operand(z, out.value).with_flags(out.flags), if z == 6 { 4 } else { 2 })
        } else if x == 1 {
            (self.with_flags(bit_spec(y, v, self.flags())), 2)
        } else if x == 2 {
            (self.set_operand(z, res_spec(y, v)), 2)
        } else {
            (self.set_operand(z, set_spec(y, v)), 2)
        }
    }

    /// A relative jump by displacement `e` if `taken`, PC being past the
    /// displacement byte.
    pub open spec fn jump_rel(self, e: u8, taken: bool) -> CpuState {
        if taken {
            self.with_pc(wrap16(self.reg.pc + signed8(e)))
        } else {
            self
        }
    }

    /// Opcodes 0x00-0x3F.
    pub open spec fn exec_low(self, op: u8) -> (CpuState, u8) {
        let y = op / 8;
        let p = op / 16;
        let f = self.flags();
        let a = self.reg.a;
        let hl = self.reg.hl_spec();
        if op % 8 == 4 {
            let out = inc_spec(self.operand(y), f);
            (self.set_operand(y, out.value).with_flags(out.flags), if y == 6 { 3 } else { 1 })
        } else if op % 8 == 5 {
            let out = dec_spec(self.operand(y), f);
            (self.set_operand(y, out.value).with_flags(out.flags), if y == 6 { 3 } else { 1 })
        } else if op % 8 == 6 {
            (self.skip(1).set_operand(y, self.imm8()), if y == 6 { 3 } else { 2 })
        } else if op % 16 == 1 {
            (self.skip(2).with_reg(self.skip(2).reg.with16(r16(p), self.imm16())), 3)
        } else if op % 16 == 3 {
            (self.with_reg(self.reg.with16(r16(p), wrap16(self.reg.get16_spec(r16(p)) + 1))), 2)
        } else if op % 16 == 11 {
            (self.with_reg(self.reg.with16(r16(p), wrap16(self.reg.get16_spec(r16(p)) - 1))), 2)
        } else if op % 16 == 9 {
            let out = add16_spec(hl, self.reg.get16_spec(r16(p)), f);
            (self.with_reg(self.reg.with_hl(out.value).with_flags(out.flags)), 2)
        } else if op == 0x02 {
            (self.write(self.reg.bc_spec(), a), 2)
        } else if op == 0x12 {
            (self.write(self.reg.de_spec(), a), 2)
        } else if op == 0x22 {
            (self.write(hl, a).with_reg(self.reg.with_hl(wrap16(hl + 1))), 2)
        } else if op == 0x32 {
            (self.write(hl, a).with_reg(self.reg.with_hl(wrap16(hl - 1))), 2)
        } else if op == 0x0A {
            (self.with_reg(Registers { a: self.read(self.reg.bc_spec()), ..self.reg }), 2)
        } else if op == 0x1A {
            (self.with_reg(Registers { a: self.read(self.reg.de_spec()), ..self.reg }), 2)
        } else if op == 0x2A {
            (self.with_reg(Registers { a: self.read(hl), ..self.reg.with_hl(wrap16(hl + 1)) }), 2)
        } else if op == 0x3A {
            (self.with_reg(Registers { a: self.read(hl), ..self.reg.with_hl(wrap16(hl - 1)) }), 2)
        } else if op == 0x07 {
            (self.with_a_out(AluOut { flags: Flags { zero: false, ..rlc_spec(a).flags }, ..rlc_spec(a) }), 1)
        } else if op == 0x0F {
            (self.with_a_out(AluOut { flags: Flags { zero: false, ..rrc_spec(a).flags }, ..rrc_spec(a) }), 1)
        } else if op == 0x17 {
            let out = rl_spec(a, f.carry);
            (self.with_a_out(AluOut { flags: Flags { zero: false, ..out.flags }, ..out }), 1)
        } else if op == 0x1F {
            let out = rr_spec(a, f.carry);
            (self.with_a_out(AluOut { flags: Flags { zero: false, ..out.flags }, ..out }), 1)
        } else if op == 0x08 {
            (CpuState { bus: self.bus.write_word(self.imm16(), self.reg.sp), ..self.skip(2) }, 5)
        } else if op == 0x10 {
            (CpuState { halted: true, ..self }, 2)
        } else if op == 0x18 {
            (self.skip(1).jump_rel(self.imm8(), true), 3)
        } else if op >= 0x20 && op % 8 == 0 {
            let taken = self.cond((y - 4) as u8);
            (self.skip(1).jump_rel(self.imm8(), taken), if taken { 3 } else { 2 })
        } else if op == 0x27 {
            (self.with_a_out(daa_spec(a, f)), 1)
        } else if op == 0x2F {
            (self.with_reg(Registers { a: !a, ..self.reg }.with_flags(Flags { neg: true, half: true, ..f })), 1)
        } else if op == 0x37 {
            (self.with_flags(Flags { carry: true, neg: false, half: true, ..f }), 1)
        } else if op == 0x3F {
            (self.with_flags(Flags { carry: !f.carry, neg: false, half: false, ..f }), 1)
        } else {
            (self, 1)
        }
    }

    /// Opcodes 0xC0-0xFF, but for the 0xCB prefix.
    pub open spec fn exec_high(self, op: u8) -> (CpuState, u8) {
        let y = (op / 8) % 8;
        let p = (op / 16) % 4;
        let a = self.reg.a;
        if op < 0xE0 && op % 8 == 0 {
            if self.cond(y) {
                (self.pop().1.with_pc(self.pop().0), 5)
            } else {
                (self, 2)
            }
        } else if op % 16 == 1 {
            let (v, s) = self.pop();
            if p == 0 {
                (s.with_reg(s.reg.with_bc(v)), 3)
            } else if p == 1 {
                (s.with_reg(s.reg.with_de(v)), 3)
            } else if p == 2 {
                (s.with_reg(s.reg.with_hl(v)), 3)
            } else {
                (s.with_reg(s.reg.with_af(v)), 3)
            }
        } else if op < 0xE0 && op % 8 == 2 {
            if self.cond(y) {
                (self.with_pc(self.imm16()), 4)
            } else {
                (self.skip(2), 3)
            }
        } else if op < 0xE0 && op % 8 == 4 {
            if self.cond(y) {
                (self.skip(2).push(self.skip(2).reg.pc).with_pc(self.imm16()), 6)
            } else {
                (self.skip(2), 3)
            }
        } else if op % 16 == 5 {
            let v = if p == 0 {
                self.reg.bc_spec()
            } else if p == 1 {
                self.reg.de_spec()
            } else if p == 2 {
                self.reg.hl_spec()
            } else {
                self.reg.af_spec()
            };
            (self.push(v), 4)
        } else if op % 8 == 6 {
            (self.skip(1).alu_a(y, self.imm8()), 2)
        } else if op % 8 == 7 {
            (self.push(self.reg.pc).with_pc((op - 0xC7) as u16), 4)
        } else if op == 0xC3 {
            (self.with_pc(self.imm16()), 3)
        } else if op == 0xC9 {
            (self.pop().1.with_pc(self.pop().0), 4)
        } else if op == 0xD9 {
            (CpuState { ime: true, ..self.pop().1.with_pc(self.pop().0) }, 4)
        } else if op == 0xCD {
            (self.skip(2).push(self.skip(2).reg.pc).with_pc(self.imm16()), 6)
        } else if op == 0xE0 {
            (self.skip(1).write(wrap16(0xFF00 + self.imm8()), a), 3)
        } else if op == 0xE2 {
            (self.write(wrap16(0xFF00 + self.reg.c), a), 2)
        } else if op == 0xE8 {
            let out = add_sp_spec(self.reg.sp, self.imm8());
            (self.skip(1).with_sp(out.value).with_flags(out.flags), 4)
        } else if op == 0xE9 {
            (self.with_pc(self.reg.hl_spec()), 2)
        } else if op == 0xEA {
            (self.skip(2).write(self.imm16(), a), 4)
        } else if op == 0xF0 {
            (self.skip(1).with_reg(Registers { a: self.read(wrap16(0xFF00 + self.imm8())), ..self.skip(1).reg }), 3)
        } else if op == 0xF2 {
            (self.with_reg(Registers { a: self.read(wrap16(0xFF00 + self.reg.c)), ..self.reg }), 2)
        } else if op == 0xF3 {
            (CpuState { ime: false, ..self }, 1)
        } else if op == 0xFB {
            (CpuState { ime: true, ..self }, 1)
        } else if op == 0xF8 {
            let out = add_sp_spec(self.reg.sp, self.imm8());
            (self.skip(1).with_reg(self.skip(1).reg.with_hl(out.value).with_flags(out.flags)), 3)
        } else if op == 0xF9 {
            (self.with_sp(self.reg.hl_spec()), 2)
        } else if op == 0xFA {
            (self.skip(2).with_reg(Registers { a: self.read(self.imm16()), ..self.skip(2).reg }), 4)
        } else {
            (self, 1)
        }
    }

    /// Executes opcode `op`, PC being already past it.
    pub open spec fn execute(self, op: u8) -> (CpuState, u8) {
        if 0x40 <= op <= 0x7F {
            self.exec_load(op)
        } else if 0x80 <= op <= 0xBF {
            self.exec_alu(op)
        } else if op < 0x40 {
            self.exec_low(op)
        } else if op == 0xCB {
            self.skip(1).exec_cb(self.imm8())
        } else {
            self.exec_high(op)
        }
    }

    /// One instruction: the opcode at PC is fetched and executed; the result
    /// is the new state and the machine cycles spent, or none for an
    /// undefined opcode.
    pub open spec fn step(self) -> Option<(CpuState, u8)> {
        let op = self.read(self.reg.pc);
        if undefined_opcode(op) {
            None
        } else {
            Some(self.skip(1).execute(op))
        }
    }
}

/// Stack round trip: pushing a value and popping it gives the value back and
/// leaves SP where it was, when the two stack bytes lie in plain memory.
pub proof fn lemma_push_pop_round_trip(s: CpuState, v: u16)
    requires
        s.wf(),
        is_plain(wrap16(s.reg.sp - 1)),
        is_plain(wrap16(s.reg.sp - 2)),
    ensures
        s.push(v).pop().0 == v,
        s.push(v).pop().1.reg.sp == s.reg.sp,
        s.push(v).wf(),
{
    let sp1 = wrap16(s.reg.sp - 1);
    let sp2 = wrap16(s.reg.sp - 2);
    let m1 = s.bus.write(sp1, hi_byte(v));
    lemma_plain_write_read(s.bus, sp1, hi_byte(v), sp1);
    lemma_plain_write_read(m1, sp2, lo_byte(v), sp2);
    lemma_plain_write_read(m1, sp2, lo_byte(v), sp1);
    assert(wrap16(sp2 + 1) == sp1);
    lemma_pair_round_trip();
}

/// A relative jump by -2 placed at PC jumps back onto itself: one step
/// leaves PC unchanged.
pub proof fn lemma_jr_self_loop(s: CpuState)
    requires
        s.wf(),
        s.read(s.reg.pc) == 0x18,
        s.read(wrap16(s.reg.pc + 1)) == 0xFE,
    ensures
        s.step() matches Some((t, c)) && t.reg.pc == s.reg.pc && c == 3,
{
}

fn r8_of(i: u8) -> (r: Option<OP8>)
    ensures
        r == r8(i),
{
    if i == 0 {
        Some(OP8::B)
    } else if i == 1 {
        Some(OP8::C)
    } else if i == 2 {
        Some(OP8::D)
    } else if i == 3 {
        Some(OP8::E)
    } else if i == 4 {
        Some(OP8::H)
    } else if i == 5 {
        Some(OP8::L)
    } else if i == 6 {
        None
    } else {
        Some(OP8::A)
    }
}

fn r16_of(i: u8) -> (r: OP16)
    ensures
        r == r16(i),
{
    if i == 0 {
        OP16::BC
    } else if i == 1 {
        OP16::DE
    } else if i == 2 {
        OP16::HL
    } else {
        OP16::SP
    }
}

fn rot(k: u8, v: u8, c: bool) -> (r: AluOut)
    ensures
        r == rot_spec(k, v, c),
{
    if k == 0 {
        alu_rlc(v)
    } else if k == 1 {
        alu_rrc(v)
    } else if k == 2 {
        alu_rl(v, c)
    } else if k == 3 {
        alu_rr(v, c)
    } else if k == 4 {
        alu_sla(v)
    } else if k == 5 {
        alu_sra(v)
    } else if k == 6 {
        alu_swap(v)
    } else {
        alu_srl(v)
    }
}

/// The processor: registers, the bus it owns, and the halted state.
pub struct CPU {
    mmu: MMU,
    reg: Registers,
    halted: bool,
    ime: bool,
}

impl View for CPU {
    type V = CpuState;

    closed spec fn view(&self) -> CpuState {
        CpuState { reg: self.reg, bus: self.mmu@, halted: self.halted, ime: self.ime }
    }
}

impl CPU {
    /// A processor at power-on, running, over bus `mmu`.
    pub fn new(mmu: MMU) -> (r: CPU)
        requires
            mmu@.wf(),
        ensures
            r@.wf(),
            r@.bus == mmu@,
            r@.reg == (Registers {
                a: 0x01,
                b: 0x00,
                c: 0x13,
                d: 0x00,
                e: 0xD8,
                h: 0x01,
                l: 0x4D,
                f: 0xB0,
                pc: 0x0100,
                sp: 0xFFFE,
            }),
            !r@.halted,
            !r@.ime,
    {
        CPU { mmu: mmu, reg: Registers::new(), halted: false, ime: false }
    }

    pub fn is_halted(&self) -> (r: bool)
        ensures
            r == self@.halted,
    {
        self.halted
    }

    /// A copy of the register file.
    pub fn registers(&self) -> (r: Registers)
        ensures
            r == self@.reg,
    {
        self.reg
    }

    /// Replaces the register file.
    pub fn set_registers(&mut self, r: Registers)
        requires
            r.wf(),
        ensures
            final(self)@ == old(self)@.with_reg(r),
    {
        self.reg = r;
    }

    /// The bus.
    pub fn mmu(&self) -> (r: &MMU)
        ensures
            r@ == self@.bus,
    {
        &self.mmu
    }

    /// Records which keys are held down.
    pub fn set_joypad_keys(&mut self, keys: u8)
        ensures
            final(self)@ == (CpuState { bus: MmuState { keys: keys, ..old(self)@.bus }, ..old(self)@ }),
    {
        self.mmu.set_joypad_keys(keys);
    }

    /// Whether a finished frame waits; the mark is cleared.
    pub fn take_frame(&mut self) -> (r: bool)
        ensures
            r == old(self)@.bus.ppu.frame_ready,
            final(self)@ == (CpuState {
                bus: MmuState {
                    ppu: PpuState { frame_ready: false, ..old(self)@.bus.ppu },
                    ..old(self)@.bus
                },
                ..old(self)@
            }),
    {
        self.mmu.take_frame()
    }

    /// The serial-port console hook: when the transfer-control register
    /// 0xFF02 holds 0x81, the byte in 0xFF01 is handed out and the transfer
    /// register is cleared.
    pub fn take_serial_output(&mut self) -> (r: Option<u8>)
        requires
            old(self)@.wf(),
        ensures
            final(self)@.wf(),
            old(self)@.read(0xFF02) == 0x81 ==> r == Some(old(self)@.read(0xFF01)) && final(self)@
                == old(self)@.write(0xFF02, 0),
            old(self)@.read(0xFF02) != 0x81 ==> r is None && final(self)@ == old(self)@,
    {
        if self.mmu.read_byte(0xFF02) == 0x81 {
            let c = self.mmu.read_byte(0xFF01);
            self.mmu.write_byte(0xFF02, 0x00);
            Some(c)
        } else {
            None
        }
    }

    fn read_next_byte(&mut self) -> (r: u8)
        requires
            old(self)@.wf(),
        ensures
            r == old(self)@.imm8(),
            final(self)@ == old(self)@.skip(1),
            final(self)@.wf(),
    {
        let val = self.mmu.read_byte(self.reg.pc);
        self.reg.pc = self.reg.pc.wrapping_add(1);
        val
    }

    fn read_next_word(&mut self) -> (r: u16)
        requires
            old(self)@.wf(),
        ensures
            r == old(self)@.imm16(),
            final(self)@ == old(self)@.skip(2),
            final(self)@.wf(),
    {
        let val = self.mmu.read_word(self.reg.pc);
        self.reg.pc = self.reg.pc.wrapping_add(2);
        val
    }

    fn write_mem(&mut self, a: u16, v: u8)
        requires
            old(self)@.wf(),
        ensures
            final(self)@ == old(self)@.write(a, v),
            final(self)@.wf(),
    {
        self.mmu.write_byte(a, v);
    }

    fn operand(&self, i: u8) -> (r: u8)
        requires
            self@.wf(),
        ensures
            r == self@.operand(i),
    {
        match r8_of(i) {
            Some(r) => self.reg.get8(r),
            None => self.mmu.read_byte(self.reg.get_hl()),
        }
    }

    fn set_operand(&mut self, i: u8, v: u8)
        requires
            old(self)@.wf(),
        ensures
            final(self)@ == old(self)@.set_operand(i, v),
            final(self)@.wf(),
    {
        match r8_of(i) {
            Some(r) => self.reg.set8(r, v),
            None => {
                let hl = self.reg.get_hl();
                self.mmu.write_byte(hl, v);
            },
        }
    }

    fn set_flags(&mut self, f: Flags)
        requires
            old(self)@.wf(),
        ensures
            final(self)@ == old(self)@.with_flags(f),
            final(self)@.wf(),
    {
        self.reg.set_flags(f);
    }

    fn set_a_out(&mut self, out: AluOut)
        requires
            old(self)@.wf(),
        ensures
            final(self)@ == old(self)@.with_a_out(out),
            final(self)@.wf(),
    {
        self.reg.a = out.value;
        self.reg.set_flags(out.flags);
    }

    fn cond(&self, cc: u8) -> (r: bool)
        ensures
            r == self@.cond(cc),
    {
        if cc == 0 {
            !self.reg.get_zero()
        } else if cc == 1 {
            self.reg.get_zero()
        } else if cc == 2 {
            !self.reg.get_carry()
        } else {
            self.reg.get_carry()
        }
    }

    /// Pushes `val` onto the stack: high byte first, at descending addresses.
    pub fn push(&mut self, val: u16)
        requires
            old(self)@.wf(),
        ensures
            final(self)@ == old(self)@.push(val),
            final(self)@.wf(),
    {
        self.reg.sp = self.reg.sp.wrapping_sub(1);
        self.mmu.write_byte(self.reg.sp, (val >> 8) as u8);
        self.reg.sp = self.reg.sp.wrapping_sub(1);
        self.mmu.write_byte(self.reg.sp, (val & 0xFF) as u8);
    }

    /// Pops a value off the stack: low byte first, at ascending addresses.
    pub fn pop(&mut self) -> (r: u16)
        requires
            old(self)@.wf(),
        ensures
            (r, final(self)@) == old(self)@.pop(),
            final(self)@.wf(),
    {
        let low_byte = self.mmu.read_byte(self.reg.sp);
        self.reg.sp = self.reg.sp.wrapping_add(1);
        let high_byte = self.mmu.read_byte(self.reg.sp);
        self.reg.sp = self.reg.sp.wrapping_add(1);
        ((high_byte as u16) << 8) | (low_byte as u16)
    }

    fn alu_a(&mut self, k: u8, n: u8)
        requires
            old(self)@.wf(),
        ensures
            final(self)@ == old(self)@.alu_a(k, n),
            final(self)@.wf(),
    {
        let a = self.reg.a;
        let c = self.reg.get_carry();
        if k == 0 {
            self.set_a_out(alu_add(a, n));
        } else if k == 1 {
            self.set_a_out(alu_adc(a, n, c));
        } else if k == 2 {
            self.set_a_out(alu_sub(a, n));
        } else if k == 3 {
            self.set_a_out(alu_sbc(a, n, c));
        } else if k == 4 {
            self.set_a_out(alu_and(a, n));
        } else if k == 5 {
            self.set_a_out(alu_xor(a, n));
        } else if k == 6 {
            self.set_a_out(alu_or(a, n));
        } else {
            self.set_flags(alu_sub(a, n).flags);
        }
    }

    fn exec_load(&mut self, op: u8) -> (r: u8)
        requires
            old(self)@.wf(),
        ensures
            (final(self)@, r) == old(self)@.exec_load(op),
            final(self)@.wf(),
    {
        if op == 0x76 {
            self.halted = true;
            1
        } else {
            let dst = (op >> 3u8) & 7;
            let src = op & 7;
            let v = self.operand(src);
            self.set_operand(dst, v);
            if dst == 6 || src == 6 {
                2
            } else {
                1
            }
        }
    }

    fn exec_alu(&mut self, op: u8) -> (r: u8)
        requires
            old(self)@.wf(),
        ensures
            (final(self)@, r) == old(self)@.exec_alu(op),
            final(self)@.wf(),
    {
        let src = op & 7;
        let n = self.operand(src);
        self.alu_a((op >> 3u8) & 7, n);
        if src == 6 {
            2
        } else {
            1
        }
    }

    fn exec_cb(&mut self, op: u8) -> (r: u8)
        requires
            old(self)@.wf(),
        ensures
            (final(self)@, r) == old(self)@.exec_cb(op),
            final(self)@.wf(),
    {
        let x = op >> 6u8;
        let y = (op >> 3u8) & 7;
        let z = op & 7;
        assert(y < 8) by (bit_vector)
            requires
                y == (op >> 3u8) & 7,
        ;
        let v = self.operand(z);
        let f = self.reg.flags();
        if x == 0 {
            let out = rot(y, v, f.carry);
            self.set_operand(z, out.value);
            self.set_flags(out.flags);
            if z == 6 {
                4
            } else {
                2
            }
        } else if x == 1 {
            self.set_flags(alu_bit(y, v, f));
            2
        } else if x == 2 {
            self.set_operand(z, alu_res(y, v));
            2
        } else {
            self.set_operand(z, alu_set(y, v));
            2
        }
    }

    /// The 0xCB prefix: fetches the second opcode byte and executes it from
    /// the extended table.
    fn cb_prefix(&mut self) -> (r: u8)
        requires
            old(self)@.wf(),
        ensures
            (final(self)@, r) == old(self)@.skip(1).exec_cb(old(self)@.imm8()),
            final(self)@.wf(),
    {
        let op_code = self.read_next_byte();
        self.exec_cb(op_code)
    }

    /// A relative jump: the signed displacement `e` is added to PC.
    fn jr(&mut self, e: u8)
        requires
            old(self)@.wf(),
        ensures
            final(self)@ == old(self)@.jump_rel(e, true),
            final(self)@.wf(),
    {
        let pc = self.reg.pc;
        self.reg.pc = if e < 128 {
            pc.wrapping_add(e as u16)
        } else {
            pc.wrapping_sub(256 - e as u16)
        };
    }

    /// INC r, DEC r and LD r,n.
    fn exec_low_reg8(&mut self, op: u8) -> (r: u8)
        requires
            old(self)@.wf(),
            op < 0x40,
            op % 8 == 4 || op % 8 == 5 || op % 8 == 6,
        ensures
            (final(self)@, r) == old(self)@.exec_low(op),
            final(self)@.wf(),
    {
        let y = op / 8;
        let f = self.reg.flags();
        if op % 8 == 4 {
            let out = alu_inc(self.operand(y), f);
            self.set_operand(y, out.value);
            self.set_flags(out.flags);
            if y == 6 {
                3
            } else {
                1
            }
        } else if op % 8 == 5 {
            let out = alu_dec(self.operand(y), f);
            self.set_operand(y, out.value);
            self.set_flags(out.flags);
            if y == 6 {
                3
            } else {
                1
            }
        } else {
            let n = self.read_next_byte();
            self.set_operand(y, n);
            if y == 6 {
                3
            } else {
                2
            }
        }
    }

    /// 16-bit loads, increments, decrements and additions into HL.
    fn exec_low_reg16(&mut self, op: u8) -> (r: u8)
        requires
            old(self)@.wf(),
            op < 0x40,
            op % 16 == 1 || op % 16 == 3 || op % 16 == 11 || op % 16 == 9,
        ensures
            (final(self)@, r) == old(self)@.exec_low(op),
            final(self)@.wf(),
    {
        let rr = r16_of(op / 16);
        if op % 16 == 1 {
            let nn = self.read_next_word();
            self.reg.set16(rr, nn);
            3
        } else if op % 16 == 3 {
            let v = self.reg.get16(rr);
            self.reg.set16(rr, v.wrapping_add(1));
            2
        } else if op % 16 == 11 {
            let v = self.reg.get16(rr);
            self.reg.set16(rr, v.wrapping_sub(1));
            2
        } else {
            let out = alu_addnn(self.reg.get_hl(), self.reg.get16(rr), self.reg.flags());
            self.reg.set_hl(out.value);
            self.reg.set_flags(out.flags);
            2
        }
    }

    /// Loads between A and the byte at BC, DE or HL (with HL moved on).
    fn exec_low_indirect(&mut self, op: u8) -> (r: u8)
        requires
            old(self)@.wf(),
            op == 0x02 || op == 0x12 || op == 0x22 || op == 0x32 || op == 0x0A || op == 0x1A
                || op == 0x2A || op == 0x3A,
        ensures
            (final(self)@, r) == old(self)@.exec_low(op),
            final(self)@.wf(),
    {
        let a = self.reg.a;
        let hl = self.reg.get_hl();
        if op == 0x02 {
            self.write_mem(self.reg.get_bc(), a);
        } else if op == 0x12 {
            self.write_mem(self.reg.get_de(), a);
        } else if op == 0x22 {
            self.write_mem(hl, a);
            self.reg.set_hl(hl.wrapping_add(1));
        } else if op == 0x32 {
            self.write_mem(hl, a);
            self.reg.set_hl(hl.wrapping_sub(1));
        } else if op == 0x0A {
            self.reg.a = self.mmu.read_byte(self.reg.get_bc());
        } else if op == 0x1A {
            self.reg.a = self.mmu.read_byte(self.reg.get_de());
        } else if op == 0x2A {
            let v = self.mmu.read_byte(hl);
            self.reg.set_hl(hl.wrapping_add(1));
            self.reg.a = v;
        } else {
            let v = self.mmu.read_byte(hl);
            self.reg.set_hl(hl.wrapping_sub(1));
            self.reg.a = v;
        }
        2
    }

    /// The accumulator rotates: Zero is always cleared.
    fn exec_low_rotate(&mut self, op: u8) -> (r: u8)
        requires
            old(self)@.wf(),
            op == 0x07 || op == 0x0F || op == 0x17 || op == 0x1F,
        ensures
            (final(self)@, r) == old(self)@.exec_low(op),
            final(self)@.wf(),
    {
        let a = self.reg.a;
        let c = self.reg.get_carry();
        let out = if op == 0x07 {
            alu_rlc(a)
        } else if op == 0x0F {
            alu_rrc(a)
        } else if op == 0x17 {
            alu_rl(a, c)
        } else {
            alu_rr(a, c)
        };
        self.set_a_out(
            AluOut {
                value: out.value,
                flags: Flags {
                    zero: false,
                    neg: out.flags.neg,
                    half: out.flags.half,
                    carry: out.flags.carry,
                },
            },
        );
        1
    }

    /// Relative jumps, unconditional and conditional.
    fn exec_low_jump(&mut self, op: u8) -> (r: u8)
        requires
            old(self)@.wf(),
            op == 0x18 || op == 0x20 || op == 0x28 || op == 0x30 || op == 0x38,
        ensures
            (final(self)@, r) == old(self)@.exec_low(op),
            final(self)@.wf(),
    {
        if op == 0x18 {
            let e = self.read_next_byte();
            self.jr(e);
            3
        } else {
            let taken = self.cond(op / 8 - 4);
            let e = self.read_next_byte();
            if taken {
                self.jr(e);
                3
            } else {
                2
            }
        }
    }

    /// The remaining opcodes below 0x40: NOP, LD (nn),SP, STOP, DAA, CPL,
    /// SCF, CCF.
    fn exec_low_misc(&mut self, op: u8) -> (r: u8)
        requires
            old(self)@.wf(),
            op == 0x00 || op == 0x08 || op == 0x10 || op == 0x27 || op == 0x2F || op == 0x37 || op
                == 0x3F,
        ensures
            (final(self)@, r) == old(self)@.exec_low(op),
            final(self)@.wf(),
    {
        let f = self.reg.flags();
        let a = self.reg.a;
        if op == 0x08 {
            let nn = self.read_next_word();
            self.mmu.write_word(nn, self.reg.sp);
            5
        } else if op == 0x10 {
            self.halted = true;
            2
        } else if op == 0x27 {
            self.set_a_out(alu_daa(a, f));
            1
        } else if op == 0x2F {
            self.reg.a = !a;
            self.reg.set_flags(Flags { zero: f.zero, neg: true, half: true, carry: f.carry });
            1
        } else if op == 0x37 {
            self.set_flags(Flags { zero: f.zero, neg: false, half: true, carry: true });
            1
        } else if op == 0x3F {
            self.set_flags(Flags { zero: f.zero, neg: false, half: false, carry: !f.carry });
            1
        } else {
            1
        }
    }

    fn exec_low(&mut self, op: u8) -> (r: u8)
        requires
            old(self)@.wf(),
            op < 0x40,
        ensures
            (final(self)@, r) == old(self)@.exec_low(op),
            final(self)@.wf(),
    {
        if op % 8 == 4 || op % 8 == 5 || op % 8 == 6 {
            self.exec_low_reg8(op)
        } else if op % 16 == 1 || op % 16 == 3 || op % 16 == 11 || op % 16 == 9 {
            self.exec_low_reg16(op)
        } else if op == 0x02 || op == 0x12 || op == 0x22 || op == 0x32 || op == 0x0A || op == 0x1A
            || op == 0x2A || op == 0x3A {
            self.exec_low_indirect(op)
        } else if op == 0x07 || op == 0x0F || op == 0x17 || op == 0x1F {
            self.exec_low_rotate(op)
        } else if op == 0x18 || op == 0x20 || op == 0x28 || op == 0x30 || op == 0x38 {
            self.exec_low_jump(op)
        } else {
            self.exec_low_misc(op)
        }
    }

    /// Returns: conditional, plain, and RETI.
    fn exec_high_ret(&mut self, op: u8) -> (r: u8)
        requires
            old(self)@.wf(),
            op == 0xC0 || op == 0xC8 || op == 0xD0 || op == 0xD8 || op == 0xC9 || op == 0xD9,
        ensures
            (final(self)@, r) == old(self)@.exec_high(op),
            final(self)@.wf(),
    {
        if op == 0xC9 || op == 0xD9 {
            let v = self.pop();
            self.reg.pc = v;
            if op == 0xD9 {
                self.ime = true;
            }
            4
        } else if self.cond((op / 8) % 8) {
            let v = self.pop();
            self.reg.pc = v;
            5
        } else {
            2
        }
    }

    /// PUSH, POP and the restart calls.
    fn exec_high_stack(&mut self, op: u8) -> (r: u8)
        requires
            old(self)@.wf(),
            op >= 0xC0,
            op % 16 == 1 || op % 16 == 5 || op % 8 == 7,
        ensures
            (final(self)@, r) == old(self)@.exec_high(op),
            final(self)@.wf(),
    {
        let p = (op / 16) % 4;
        if op % 16 == 1 {
            let v = self.pop();
            if p == 0 {
                self.reg.set_bc(v);
            } else if p == 1 {
                self.reg.set_de(v);
            } else if p == 2 {
                self.reg.set_hl(v);
            } else {
                self.reg.set_af(v);
            }
            3
        } else if op % 16 == 5 {
            let v = if p == 0 {
                self.reg.get_bc()
            } else if p == 1 {
                self.reg.get_de()
            } else if p == 2 {
                self.reg.get_hl()
            } else {
                self.reg.get_af()
            };
            self.push(v);
            4
        } else {
            let pc = self.reg.pc;
            self.push(pc);
            self.reg.pc = (op - 0xC7) as u16;
            4
        }
    }

    /// Absolute jumps and calls, conditional and plain, and JP (HL).
    fn exec_high_jump(&mut self, op: u8) -> (r: u8)
        requires
            old(self)@.wf(),
            op == 0xC2 || op == 0xCA || op == 0xD2 || op == 0xDA || op == 0xC3 || op == 0xC4 || op
                == 0xCC || op == 0xD4 || op == 0xDC || op == 0xCD || op == 0xE9,
        ensures
            (final(self)@, r) == old(self)@.exec_high(op),
            final(self)@.wf(),
    {
        if op == 0xE9 {
            self.reg.pc = self.reg.get_hl();
            2
        } else if op == 0xC3 {
            let nn = self.read_next_word();
            self.reg.pc = nn;
            3
        } else if op == 0xCD {
            let nn = self.read_next_word();
            let ret = self.reg.pc;
            self.push(ret);
            self.reg.pc = nn;
            6
        } else if op % 8 == 2 {
            let taken = self.cond((op / 8) % 8);
            let nn = self.read_next_word();
            if taken {
                self.reg.pc = nn;
                4
            } else {
                3
            }
        } else {
            let taken = self.cond((op / 8) % 8);
            let nn = self.read_next_word();
            if taken {
                let ret = self.reg.pc;
                self.push(ret);
                self.reg.pc = nn;
                6
            } else {
                3
            }
        }
    }

    /// Accumulator arithmetic with an immediate operand.
    fn exec_high_alu(&mut self, op: u8) -> (r: u8)
        requires
            old(self)@.wf(),
            op >= 0xC0,
            op % 8 == 6,
        ensures
            (final(self)@, r) == old(self)@.exec_high(op),
            final(self)@.wf(),
    {
        let n = self.read_next_byte();
        self.alu_a((op / 8) % 8, n);
        2
    }

    /// Loads between A and the high page or an absolute address.
    fn exec_high_io(&mut self, op: u8) -> (r: u8)
        requires
            old(self)@.wf(),
            op == 0xE0 || op == 0xE2 || op == 0xF0 || op == 0xF2 || op == 0xEA || op == 0xFA,
        ensures
            (final(self)@, r) == old(self)@.exec_high(op),
            final(self)@.wf(),
    {
        let a = self.reg.a;
        if op == 0xE0 {
            let n = self.read_next_byte();
            self.write_mem(0xFF00 + n as u16, a);
            3
        } else if op == 0xE2 {
            self.write_mem(0xFF00 + self.reg.c as u16, a);
            2
        } else if op == 0xF0 {
            let n = self.read_next_byte();
            self.reg.a = self.mmu.read_byte(0xFF00 + n as u16);
            3
        } else if op == 0xF2 {
            self.reg.a = self.mmu.read_byte(0xFF00 + self.reg.c as u16);
            2
        } else if op == 0xEA {
            let nn = self.read_next_word();
            self.write_mem(nn, a);
            4
        } else {
            let nn = self.read_next_word();
            self.reg.a = self.mmu.read_byte(nn);
            4
        }
    }

    /// Stack-pointer arithmetic and the interrupt-enable switches.
    fn exec_high_misc(&mut self, op: u8) -> (r: u8)
        requires
            old(self)@.wf(),
            op == 0xE8 || op == 0xF8 || op == 0xF9 || op == 0xF3 || op == 0xFB,
        ensures
            (final(self)@, r) == old(self)@.exec_high(op),
            final(self)@.wf(),
    {
        if op == 0xE8 {
            let e = self.read_next_byte();
            let out = alu_add_sp(self.reg.sp, e);
            self.reg.sp = out.value;
            self.reg.set_flags(out.flags);
            4
        } else if op == 0xF8 {
            let e = self.read_next_byte();
            let out = alu_add_sp(self.reg.sp, e);
            self.reg.set_hl(out.value);
            self.reg.set_flags(out.flags);
            3
        } else if op == 0xF9 {
            self.reg.sp = self.reg.get_hl();
            2
        } else if op == 0xF3 {
            self.ime = false;
            1
        } else {
            self.ime = true;
            1
        }
    }

    fn exec_high(&mut self, op: u8) -> (r: u8)
        requires
            old(self)@.wf(),
            op >= 0xC0,
            op != 0xCB,
            !undefined_opcode(op),
        ensures
            (final(self)@, r) == old(self)@.exec_high(op),
            final(self)@.wf(),
    {
        if op == 0xC0 || op == 0xC8 || op == 0xD0 || op == 0xD8 || op == 0xC9 || op == 0xD9 {
            self.exec_high_ret(op)
        } else if op % 16 == 1 || op % 16 == 5 || op % 8 == 7 {
            self.exec_high_stack(op)
        } else if op == 0xC2 || op == 0xCA || op == 0xD2 || op == 0xDA || op == 0xC3 || op == 0xC4
            || op == 0xCC || op == 0xD4 || op == 0xDC || op == 0xCD || op == 0xE9 {
            self.exec_high_jump(op)
        } else if op % 8 == 6 {
            self.exec_high_alu(op)
        } else if op == 0xE0 || op == 0xE2 || op == 0xF0 || op == 0xF2 || op == 0xEA || op == 0xFA {
            self.exec_high_io(op)
        } else {
            self.exec_high_misc(op)
        }
    }

    /// Executes opcode `op`, PC being already past it.
    fn execute(&mut self, op: u8) -> (r: u8)
        requires
            old(self)@.wf(),
            !undefined_opcode(op),
        ensures
            (final(self)@, r) == old(self)@.execute(op),
            final(self)@.wf(),
    {
        if 0x40 <= op && op <= 0x7F {
            self.exec_load(op)
        } else if 0x80 <= op && op <= 0xBF {
            self.exec_alu(op)
        } else if op < 0x40 {
            self.exec_low(op)
        } else if op == 0xCB {
            self.cb_prefix()
        } else {
            self.exec_high(op)
        }
    }

    /// Executes one instruction: fetches the opcode at PC through the bus and
    /// runs it. Returns the machine cycles spent, or the fault for an
    /// undefined opcode, in which case nothing changes.
    pub fn step(&mut self) -> (r: Result<u8, Fault>)
        requires
            old(self)@.wf(),
        ensures
            final(self)@.wf(),
            old(self)@.step() matches Some((s, c)) ==> r == Ok::<u8, Fault>(c) && final(self)@
                == s,
            old(self)@.step() is None ==> r == Err::<u8, Fault>(
                Fault::UnknownOpcode { op: old(self)@.read(old(self)@.reg.pc), pc: old(self)@.reg.pc },
            ) && final(self)@ == old(self)@,
    {
        let pc = self.reg.pc;
        let op = self.mmu.read_byte(pc);
        if op == 0xD3 || op == 0xDB || op == 0xDD || op == 0xE3 || op == 0xE4 || op == 0xEB || op
            == 0xEC || op == 0xED || op == 0xF4 || op == 0xFC || op == 0xFD {
            return Err(Fault::UnknownOpcode { op, pc });
        }
        self.reg.pc = pc.wrapping_add(1);
        let cycles = self.execute(op);
        Ok(cycles)
    }

    /// One instruction, then the timer and the video controller advanced by
    /// the cycles that it spent.
    pub fn cpu_step(&mut self) -> (r: Result<u8, Fault>)
        requires
            old(self)@.wf(),
        ensures
            final(self)@.wf(),
            old(self)@.step() matches Some((s, c)) ==> r == Ok::<u8, Fault>(c) && final(self)@
                == (CpuState { bus: s.bus.step(c), ..s }),
            old(self)@.step() is None ==> r is Err && final(self)@ == old(self)@,
    {
        let r = self.step();
        if let Ok(cycles) = r {
            self.mmu.step(cycles);
        }
        r
    }
}

} // verus!
