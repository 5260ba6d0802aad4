use vstd::prelude::*;

use crate::cartridge::{CartState, Cartridge};
use crate::ppu::{is_ppu_addr, PpuState, PPU};
use crate::registers::{hi_byte, lo_byte, pair};
use crate::timer::{Timer, TimerState};
use crate::util::test_bit_u8;

verus! {

pub const MEM_LEN: usize = 65536;

pub const JOYPAD_REG: u16 = 0xFF00;

pub const IF_REG: u16 = 0xFF0F;

pub const DMA_REG: u16 = 0xFF46;

/// What the memory bus holds, as the contracts see it.
pub struct MmuState {
    pub mem: Seq<u8>,
    pub timer: TimerState,
    pub ppu: PpuState,
    pub cart: CartState,
    pub serial_interrupt: u8,
    /// The selection byte last written to the joypad register.
    pub joypad: u8,
    /// The keys held down: bits 0-3 the directions, bits 4-7 the buttons.
    pub keys: u8,
}

/// The joypad register as read: the selected half of the key state,
/// inverted (0 = pressed), upper bits set.
pub open spec fn joypad_value(joypad: u8, keys: u8) -> u8 {
    if !((joypad >> 5u8) & 1 == 1) {
        ((!keys) >> 4u8) | 0xF0
    } else {
        (!keys) | 0xF0
    }
}

impl MmuState {
    pub open spec fn wf(self) -> bool {
        &&& self.mem.len() == MEM_LEN
        &&& self.ppu.wf()
        &&& self.cart.wf()
    }

    /// The interrupt-flag register, composed from the pending bits of the
    /// video controller, the timer and the serial port.
    pub open spec fn interrupt_flags(self) -> u8 {
        0xE0u8 | (self.ppu.vblank_interrupt & 1) | ((self.ppu.stat_interrupt & 1) << 1u8) | ((
        self.timer.interrupt & 1) << 2u8) | ((self.serial_interrupt & 1) << 3u8)
    }

    /// The byte that a read at `loc` returns.
    #[verifier::opaque]
    pub open spec fn read(self, loc: u16) -> u8 {
        if loc <= 0x7FFF {
            self.cart.read(loc)
        } else if is_ppu_addr(loc) {
            self.ppu.read(loc)
        } else if loc == JOYPAD_REG {
            joypad_value(self.joypad, self.keys)
        } else if loc == 0xFF4D {
            0xFF
        } else if 0xFF04 <= loc <= 0xFF07 {
            self.timer.read(loc)
        } else if loc == IF_REG {
            self.interrupt_flags()
        } else {
            self.mem[loc as int]
        }
    }

    /// The state after a write of `val` at `loc`.
    #[verifier::opaque]
    pub open spec fn write(self, loc: u16, val: u8) -> MmuState {
        if loc <= 0x7FFF {
            MmuState { cart: self.cart.write(loc, val), ..self }
        } else if is_ppu_addr(loc) {
            MmuState { ppu: self.ppu.write(loc, val), ..self }
        } else if loc == JOYPAD_REG {
            MmuState { joypad: val, ..self }
        } else if 0xFF04 <= loc <= 0xFF07 {
            MmuState { timer: self.timer.write(loc, val), ..self }
        } else if loc == IF_REG {
            MmuState {
                timer: self.timer.write(IF_REG, val),
                serial_interrupt: if val & 0x08 != 0 { 1 } else { 0 },
                ppu: PpuState {
                    vblank_interrupt: if val & 0x01 != 0 { 1 } else { 0 },
                    stat_interrupt: if val & 0x02 != 0 { 1 } else { 0 },
                    ..self.ppu
                },
                ..self
            }
        } else if loc == DMA_REG {
            self
        } else {
            MmuState { mem: self.mem.update(loc as int, val), ..self }
        }
    }

    /// The little-endian word at `loc`, `loc + 1`.
    pub open spec fn read_word(self, loc: u16) -> u16 {
        pair(self.read(((loc as int + 1) % 65536) as u16), self.read(loc))
    }

    /// The state after writing `val` little-endian at `loc`, `loc + 1`.
    pub open spec fn write_word(self, loc: u16, val: u16) -> MmuState {
        self.write(loc, lo_byte(val)).write(((loc as int + 1) % 65536) as u16, hi_byte(val))
    }

    /// The state after `m_cycles` machine cycles of the timer and the video
    /// controller.
    pub open spec fn step(self, m_cycles: u8) -> MmuState {
        MmuState { timer: self.timer.step(m_cycles), ppu: self.ppu.step(m_cycles), ..self }
    }
}

/// Whether `loc` is plain memory: an address that no component claims.
pub open spec fn is_plain(loc: u16) -> bool {
    &&& loc > 0x7FFF
    &&& !is_ppu_addr(loc)
    &&& loc != JOYPAD_REG
    &&& loc != 0xFF4D
    &&& !(0xFF04 <= loc <= 0xFF07)
    &&& loc != IF_REG
    &&& loc != DMA_REG
}

/// A write to plain memory is read back at its address and changes no other.
pub proof fn lemma_plain_write_read(m: MmuState, a: u16, v: u8, b: u16)
    requires
        m.wf(),
        is_plain(a),
    ensures
        m.write(a, v).wf(),
        m.write(a, v).read(b) == if a == b {
            v
        } else {
            m.read(b)
        },
{
    reveal(MmuState::read);
    reveal(MmuState::write);
}

/// The memory bus: a 64 KiB address space that routes each address to the
/// cartridge, the video controller, the timer, the interrupt and joypad
/// registers, or plain memory.
pub struct MMU {
    mem: Vec<u8>,
    timer: Timer,
    ppu: PPU,
    serial_interrupt: u8,
    cartridge: Cartridge,
    joypad: u8,
    joypad_keys: u8,
}

impl View for MMU {
    type V = MmuState;

    closed spec fn view(&self) -> MmuState {
        MmuState {
            mem: self.mem@,
            timer: self.timer@,
            ppu: self.ppu@,
            cart: self.cartridge@,
            serial_interrupt: self.serial_interrupt,
            joypad: self.joypad,
            keys: self.joypad_keys,
        }
    }
}

impl MMU {
    /// A bus around `cartridge`, with fresh timer, video controller and
    /// zeroed memory, no interrupt pending and no key held.
    pub fn new(cartridge: Cartridge) -> (r: MMU)
        requires
            cartridge@.wf(),
        ensures
            r@.wf(),
            r@.cart == cartridge@,
            r@.mem == Seq::new(MEM_LEN as nat, |i: int| 0u8),
            r@.timer == TimerState::initial(),
            r@.ppu == PpuState::initial(),
            r@.serial_interrupt == 0,
            r@.joypad == 0xFF,
            r@.keys == 0,
    {
        let mut mem: Vec<u8> = Vec::new();
        while mem.len() < MEM_LEN
            invariant
                mem.len() <= MEM_LEN,
                forall|i: int| 0 <= i < mem.len() ==> #[trigger] mem@[i] == 0,
            decreases MEM_LEN - mem.len(),
        {
            mem.push(0);
        }
        assert(mem@ =~= Seq::new(MEM_LEN as nat, |i: int| 0u8));
        let mmu = MMU {
            mem,
            timer: Timer::new(),
            ppu: PPU::new(),
            serial_interrupt: 0,
            cartridge,
            joypad: 0xFF,
            joypad_keys: 0,
        };
        mmu
    }

    /// Advances the timer and the video controller by `m_cycles` machine
    /// cycles.
    pub fn step(&mut self, m_cycles: u8)
        requires
            old(self)@.wf(),
        ensures
            final(self)@ == old(self)@.step(m_cycles),
            final(self)@.wf(),
    {
        self.timer.step_cycle(m_cycles);
        self.ppu.ppu_step(m_cycles);
    }

    pub fn read_byte(&self, loc: u16) -> (r: u8)
        requires
            self@.wf(),
        ensures
            r == self@.read(loc),
    {
        reveal(MmuState::read);
        reveal(MmuState::write);
        if loc <= 0x7FFF {
            self.cartridge.read_byte(loc)
        } else if (0x8000 <= loc && loc <= 0x9FFF) || (0xFE00 <= loc && loc <= 0xFE9F) || (0xFF40
            <= loc && loc <= 0xFF45) || (0xFF47 <= loc && loc <= 0xFF49) {
            self.ppu.read_byte(loc)
        } else if loc == JOYPAD_REG {
            if !test_bit_u8(self.joypad, 5) {
                ((!self.joypad_keys) >> 4u8) | 0xF0
            } else {
                (!self.joypad_keys) | 0xF0
            }
        } else if loc == 0xFF4D {
            0xFF
        } else if 0xFF04 <= loc && loc <= 0xFF07 {
            self.timer.read_byte(loc)
        } else if loc == IF_REG {
            let (vblank, stat) = self.ppu.interrupt_bits();
            0xE0u8 | (vblank & 1) | ((stat & 1) << 1u8) | ((self.timer.interrupt_bit() & 1) << 2u8)
                | ((self.serial_interrupt & 1) << 3u8)
        } else {
            self.mem[loc as usize]
        }
    }

    pub fn read_word(&self, loc: u16) -> (r: u16)
        requires
            self@.wf(),
        ensures
            r == self@.read_word(loc),
    {
        let lo = self.read_byte(loc);
        let hi = self.read_byte(loc.wrapping_add(1));
        ((hi as u16) << 8) | (lo as u16)
    }

    /// Writes the interrupt-flag register: each pending bit is set or cleared
    /// in the component that owns it.
    fn update_interrupts(&mut self, new_if: u8)
        requires
            old(self)@.wf(),
        ensures
            final(self)@ == old(self)@.write(IF_REG, new_if),
            final(self)@.wf(),
    {
        reveal(MmuState::read);
        reveal(MmuState::write);
        self.timer.write_byte(IF_REG, new_if);
        self.serial_interrupt = if new_if & 0x08 != 0 {
            1
        } else {
            0
        };
        let vblank: u8 = if new_if & 0x01 != 0 {
            1
        } else {
            0
        };
        let stat: u8 = if new_if & 0x02 != 0 {
            1
        } else {
            0
        };
        self.ppu.set_interrupt_bits(vblank, stat);
    }

    pub fn write_byte(&mut self, loc: u16, val: u8)
        requires
            old(self)@.wf(),
        ensures
            final(self)@ == old(self)@.write(loc, val),
            final(self)@.wf(),
    {
        reveal(MmuState::read);
        reveal(MmuState::write);
        if loc <= 0x7FFF {
            self.cartridge.write_byte(loc, val);
        } else if (0x8000 <= loc && loc <= 0x9FFF) || (0xFE00 <= loc && loc <= 0xFE9F) || (0xFF40
            <= loc && loc <= 0xFF45) || (0xFF47 <= loc && loc <= 0xFF49) {
            self.ppu.write_byte(loc, val);
        } else if loc == JOYPAD_REG {
            self.joypad = val;
        } else if 0xFF04 <= loc && loc <= 0xFF07 {
            self.timer.write_byte(loc, val);
        } else if loc == IF_REG {
            self.update_interrupts(val);
        } else if loc == DMA_REG {
        } else {
            self.mem[loc as usize] = val;
        }
    }

    pub fn write_word(&mut self, loc: u16, val: u16)
        requires
            old(self)@.wf(),
        ensures
            final(self)@ == old(self)@.write_word(loc, val),
            final(self)@.wf(),
    {
        self.write_byte(loc, (val & 0xFF) as u8);
        self.write_byte(loc.wrapping_add(1), (val >> 8) as u8);
    }

    /// Records which keys are held down (bits 0-3 the directions, bits 4-7
    /// the buttons).
    pub fn set_joypad_keys(&mut self, keys: u8)
        ensures
            final(self)@ == (MmuState { keys: keys, ..old(self)@ }),
    {
        self.joypad_keys = keys;
    }

    /// Whether the video controller has finished a frame; the mark is cleared.
    pub fn take_frame(&mut self) -> (r: bool)
        ensures
            r == old(self)@.ppu.frame_ready,
            final(self)@ == (MmuState {
                ppu: PpuState { frame_ready: false, ..old(self)@.ppu },
                ..old(self)@
            }),
    {
        self.ppu.take_frame()
    }

    /// The frame buffer of the video controller.
    pub fn frame(&self) -> (r: &Vec<u32>)
        ensures
            r@ == self@.ppu.back_buffer,
    {
        self.ppu.frame()
    }
}

} // verus!
