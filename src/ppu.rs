use vstd::prelude::*;

use crate::util::test_bit_u8;

verus! {

pub const SCREEN_WIDTH: usize = 160;

pub const SCREEN_HEIGHT: usize = 144;

/// Pixels in one frame.
pub const FRAME_LEN: usize = 23040;

pub const VRAM_LEN: usize = 8192;

pub const OAM_LEN: usize = 160;

/// Clock cycles spent in each mode before the next.
pub const OAM_CYCLES: u16 = 80;

pub const DRAW_CYCLES: u16 = 172;

pub const HBLANK_CYCLES: u16 = 204;

pub const VBLANK_CYCLES: u16 = 456;

/// Colour index 0 of the palette; sprite pixels of this colour are not drawn.
pub const WHITE: u32 = 0x00ffffff;

/// The phase of the scanline state machine.
#[derive(Clone, Copy, PartialEq, Eq, Structural, Debug)]
pub enum PpuMode {
    Oam,
    HBlank,
    VBlank,
    Draw,
}

/// What the video controller holds, as the contracts see it.
pub struct PpuState {
    pub clock: u16,
    pub mode: PpuMode,
    pub back_buffer: Seq<u32>,
    pub vram: Seq<u8>,
    pub oam: Seq<u8>,
    pub lcd_control: u8,
    pub lcd_stat: u8,
    pub scy: u8,
    pub scx: u8,
    pub ly: u8,
    pub lyc: u8,
    pub bg_palette: u8,
    pub obj_palette_1: u8,
    pub obj_palette_2: u8,
    pub vblank_interrupt: u8,
    pub stat_interrupt: u8,
    pub frame_ready: bool,
}

pub open spec fn bit_set(v: u8, b: u8) -> bool {
    (v >> b) & 1 == 1
}

/// The pixel value of shade `idx` (0 lightest, 3 darkest).
pub open spec fn shade(idx: u8) -> u32 {
    if idx == 0 {
        0x00ffffff
    } else if idx == 1 {
        0x00A0A0A0
    } else if idx == 2 {
        0x00555555
    } else {
        0
    }
}

/// The 2-bit colour number of a tile pixel: bit `bit` of the high plane byte
/// and of the low plane byte.
pub open spec fn color_num(lo: u8, hi: u8, bit: u8) -> u8 {
    (((hi >> bit) & 1) << 1) | ((lo >> bit) & 1)
}

/// The pixel value that palette `pal` gives colour number `cn`.
pub open spec fn palette_color(pal: u8, cn: u8) -> u32 {
    shade((pal >> (cn * 2)) & 3)
}

/// Offset in video RAM of tile `tile`'s data: unsigned from 0x8000 when bit 4
/// of the control register is set, signed around 0x9000 otherwise.
pub open spec fn tile_addr(lcdc: u8, tile: u8) -> int {
    if bit_set(lcdc, 4) {
        tile as int * 16
    } else {
        0x800 + ((tile as int + 128) % 256) * 16
    }
}

impl PpuState {
    /// The power-on state.
    pub open spec fn initial() -> PpuState {
        PpuState {
            clock: 0,
            mode: PpuMode::VBlank,
            back_buffer: Seq::new(FRAME_LEN as nat, |i: int| WHITE),
            vram: Seq::new(VRAM_LEN as nat, |i: int| 0u8),
            oam: Seq::new(OAM_LEN as nat, |i: int| 0u8),
            lcd_control: 0x91,
            lcd_stat: 0xFF,
            scy: 0,
            scx: 0,
            ly: 0,
            lyc: 0,
            bg_palette: 0xFC,
            obj_palette_1: 0xFF,
            obj_palette_2: 0xFF,
            vblank_interrupt: 0,
            stat_interrupt: 0,
            frame_ready: false,
        }
    }

    pub open spec fn wf(self) -> bool {
        &&& self.back_buffer.len() == FRAME_LEN
        &&& self.vram.len() == VRAM_LEN
        &&& self.oam.len() == OAM_LEN
    }

    /// The background line drawn on the current scanline.
    pub open spec fn bg_line(self) -> int {
        (self.ly as int + self.scy as int + 1) % 256
    }

    /// The background pixel at column `x` of the current scanline.
    pub open spec fn bg_pixel(self, x: int) -> u32 {
        let line = self.bg_line();
        let base: int = if bit_set(self.lcd_control, 3) {
            0x1C00
        } else {
            0x1800
        };
        let tile = self.vram[base + (line / 8) * 32 + x / 8];
        let addr = tile_addr(self.lcd_control, tile) + (line % 8) * 2;
        palette_color(
            self.bg_palette,
            color_num(self.vram[addr], self.vram[addr + 1], (7 - x % 8) as u8),
        )
    }

    pub open spec fn sprite_height(self) -> int {
        if bit_set(self.lcd_control, 2) {
            16
        } else {
            8
        }
    }

    /// Whether sprite `k` covers the current scanline.
    pub open spec fn sprite_on_line(self, k: int) -> bool {
        let y = self.oam[4 * k] as int - 16;
        y <= self.ly < y + self.sprite_height()
    }

    /// The pixel that sprite `k` draws at column `x` of the current
    /// scanline, if it covers that pixel with a colour other than white.
    pub open spec fn sprite_color(self, k: int, x: int) -> Option<u32> {
        let y = self.oam[4 * k] as int - 16;
        let xp = self.oam[4 * k + 1] as int - 8;
        let tile0 = self.oam[4 * k + 2];
        let attr = self.oam[4 * k + 3];
        let size = self.sprite_height();
        if !self.sprite_on_line(k) || !(xp <= x < xp + 8) {
            None
        } else {
            let line0 = self.ly - y;
            let line = if bit_set(attr, 6) {
                size - 1 - line0
            } else {
                line0
            };
            let tile = if size == 16 {
                if line < 8 {
                    tile0 & 0xFE
                } else {
                    tile0 | 0x01
                }
            } else {
                tile0
            };
            let addr = tile_addr(self.lcd_control, tile) + (line % 8) * 2;
            let col = if bit_set(attr, 5) {
                7 - (x - xp)
            } else {
                x - xp
            };
            let pal = if bit_set(attr, 4) {
                self.obj_palette_2
            } else {
                self.obj_palette_1
            };
            let c = palette_color(pal, color_num(self.vram[addr], self.vram[addr + 1], (7 - col) as u8));
            if c == WHITE {
                None
            } else {
                Some(c)
            }
        }
    }

    /// Column `x` of the current scanline before sprites: the background when
    /// it is enabled, else what the buffer held.
    pub open spec fn base_pixel(self, x: int) -> u32 {
        if bit_set(self.lcd_control, 0) {
            self.bg_pixel(x)
        } else {
            self.back_buffer[self.ly as int * 160 + x]
        }
    }

    /// Column `x` after sprites `0..n` are drawn over the base, each over the
    /// ones before it.
    pub open spec fn sprite_layer(self, n: int, x: int) -> u32
        decreases n,
    {
        if n <= 0 {
            self.base_pixel(x)
        } else {
            match self.sprite_color(n - 1, x) {
                Some(c) => c,
                None => self.sprite_layer(n - 1, x),
            }
        }
    }

    /// The final pixel at column `x` of the current scanline.
    pub open spec fn line_pixel(self, x: int) -> u32 {
        if bit_set(self.lcd_control, 1) {
            self.sprite_layer(40, x)
        } else {
            self.base_pixel(x)
        }
    }

    /// The frame buffer once the current scanline is drawn into it; a
    /// scanline past the screen draws nothing.
    #[verifier::opaque]
    pub open spec fn rendered(self) -> Seq<u32> {
        if self.ly < 144 {
            Seq::new(
                FRAME_LEN as nat,
                |i: int|
                    if self.ly as int * 160 <= i < self.ly as int * 160 + 160 {
                        self.line_pixel(i - self.ly as int * 160)
                    } else {
                        self.back_buffer[i]
                    },
            )
        } else {
            self.back_buffer
        }
    }

    /// The register or memory byte at `loc`.
    pub open spec fn read(self, loc: u16) -> u8 {
        if 0xFE00 <= loc <= 0xFE9F {
            self.oam[loc - 0xFE00]
        } else if loc == 0xFF40 {
            self.lcd_control
        } else if loc == 0xFF41 {
            self.lcd_stat
        } else if loc == 0xFF42 {
            self.scy
        } else if loc == 0xFF43 {
            self.scx
        } else if loc == 0xFF44 {
            self.ly
        } else if loc == 0xFF45 {
            self.lyc
        } else if loc == 0xFF47 {
            self.bg_palette
        } else if loc == 0xFF48 {
            self.obj_palette_1
        } else if loc == 0xFF49 {
            self.obj_palette_2
        } else {
            self.vram[loc - 0x8000]
        }
    }

    /// The state after a write at `loc`. The low status bits are kept.
    pub open spec fn write(self, loc: u16, val: u8) -> PpuState {
        if 0xFE00 <= loc <= 0xFE9F {
            PpuState { oam: self.oam.update(loc - 0xFE00, val), ..self }
        } else if loc == 0xFF40 {
            PpuState { lcd_control: val, ..self }
        } else if loc == 0xFF41 {
            PpuState { lcd_stat: self.lcd_stat | (val & 0xF4), ..self }
        } else if loc == 0xFF42 {
            PpuState { scy: val, ..self }
        } else if loc == 0xFF43 {
            PpuState { scx: val, ..self }
        } else if loc == 0xFF44 {
            PpuState { ly: val, ..self }
        } else if loc == 0xFF45 {
            PpuState { lyc: val, ..self }
        } else if loc == 0xFF47 {
            PpuState { bg_palette: val, ..self }
        } else if loc == 0xFF48 {
            PpuState { obj_palette_1: val, ..self }
        } else if loc == 0xFF49 {
            PpuState { obj_palette_2: val, ..self }
        } else {
            PpuState { vram: self.vram.update(loc - 0x8000, val), ..self }
        }
    }

    /// The state after `m_cycles` machine cycles: the clock moves on by four
    /// clock cycles each, then the mode machine acts on it.
    pub open spec fn step(self, m_cycles: u8) -> PpuState {
        PpuState {
            clock: ((self.clock as int + m_cycles as int * 4) % 65536) as u16,
            ..self
        }.advance()
    }

    /// The end of a horizontal blank: the next scanline begins, its
    /// coincidence with LYC is flagged, and after the last visible line the
    /// frame is finished and vertical blank begins.
    pub open spec fn end_hblank(self) -> PpuState {
        let ly = ((self.ly as int + 1) % 256) as u8;
        let moved = PpuState { ly: ly, clock: self.clock % HBLANK_CYCLES, mode: PpuMode::Oam, ..self };
        let flagged = if ly == self.lyc {
            PpuState {
                stat_interrupt: if bit_set(self.lcd_stat, 6) {
                    1
                } else {
                    self.stat_interrupt
                },
                lcd_stat: self.lcd_stat | 0x04,
                ..moved
            }
        } else {
            moved
        };
        if ly == 143 {
            PpuState { frame_ready: true, mode: PpuMode::VBlank, vblank_interrupt: 1, ..flagged }
        } else {
            flagged
        }
    }

    /// The mode transition that the clock calls for, if any.
    #[verifier::opaque]
    pub open spec fn advance(self) -> PpuState {
        match self.mode {
            PpuMode::Oam => {
                if self.clock >= OAM_CYCLES {
                    PpuState {
                        mode: PpuMode::Draw,
                        clock: self.clock % OAM_CYCLES,
                        stat_interrupt: 0,
                        ..self
                    }
                } else {
                    PpuState { stat_interrupt: 0, ..self }
                }
            },
            PpuMode::Draw => {
                if self.clock >= DRAW_CYCLES {
                    PpuState {
                        mode: PpuMode::HBlank,
                        clock: self.clock % DRAW_CYCLES,
                        back_buffer: self.rendered(),
                        ..self
                    }
                } else {
                    self
                }
            },
            PpuMode::HBlank => {
                if self.clock >= HBLANK_CYCLES {
                    self.end_hblank()
                } else {
                    self
                }
            },
            PpuMode::VBlank => {
                if self.clock >= VBLANK_CYCLES {
                    let ly = ((self.ly as int + 1) % 256) as u8;
                    if ly > 153 {
                        PpuState {
                            clock: self.clock % VBLANK_CYCLES,
                            ly: 0,
                            mode: PpuMode::Oam,
                            ..self
                        }
                    } else {
                        PpuState { clock: self.clock % VBLANK_CYCLES, ly: ly, ..self }
                    }
                } else {
                    self
                }
            },
        }
    }
}

/// Whether `loc` belongs to the video controller: video RAM, sprite
/// attribute memory, or one of its registers.
pub open spec fn is_ppu_addr(loc: u16) -> bool {
    ||| 0x8000 <= loc <= 0x9FFF
    ||| 0xFE00 <= loc <= 0xFE9F
    ||| 0xFF40 <= loc <= 0xFF45
    ||| 0xFF47 <= loc <= 0xFF49
}

/// The video controller: its memories, registers, the scanline state machine
/// and the frame buffer that it draws into.
pub struct PPU {
    ppu_clock: u16,
    mode: PpuMode,
    back_buffer: Vec<u32>,
    vram: Vec<u8>,
    oam_mem: Vec<u8>,
    lcd_control: u8,
    lcd_stat: u8,
    scy: u8,
    scx: u8,
    ly: u8,
    lyc: u8,
    bg_pallete: u8,
    obj_pallete_1: u8,
    obj_pallete_2: u8,
    /// 1 when a vertical-blank interrupt is pending.
    pub vblank_interrupt: u8,
    /// 1 when a status (coincidence) interrupt is pending.
    pub stat_interrupt: u8,
    frame_ready: bool,
}

impl View for PPU {
    type V = PpuState;

    closed spec fn view(&self) -> PpuState {
        PpuState {
            clock: self.ppu_clock,
            mode: self.mode,
            back_buffer: self.back_buffer@,
            vram: self.vram@,
            oam: self.oam_mem@,
            lcd_control: self.lcd_control,
            lcd_stat: self.lcd_stat,
            scy: self.scy,
            scx: self.scx,
            ly: self.ly,
            lyc: self.lyc,
            bg_palette: self.bg_pallete,
            obj_palette_1: self.obj_pallete_1,
            obj_palette_2: self.obj_pallete_2,
            vblank_interrupt: self.vblank_interrupt,
            stat_interrupt: self.stat_interrupt,
            frame_ready: self.frame_ready,
        }
    }
}

fn filled<T: Copy>(v: T, n: usize) -> (r: Vec<T>)
    ensures
        r@ == Seq::new(n as nat, |i: int| v),
{
    let mut r: Vec<T> = Vec::new();
    while r.len() < n
        invariant
            r.len() <= n,
            forall|i: int| 0 <= i < r.len() ==> #[trigger] r@[i] == v,
        decreases n - r.len(),
    {
        r.push(v);
    }
    assert(r@ =~= Seq::new(n as nat, |i: int| v));
    r
}

fn shade_exec(idx: u8) -> (r: u32)
    ensures
        r == shade(idx),
{
    if idx == 0 {
        0x00ffffff
    } else if idx == 1 {
        0x00A0A0A0
    } else if idx == 2 {
        0x00555555
    } else {
        0
    }
}

fn palette_color_exec(pal: u8, cn: u8) -> (r: u32)
    requires
        cn < 4,
    ensures
        r == palette_color(pal, cn),
{
    shade_exec((pal >> (cn * 2)) & 3)
}

fn color_num_exec(lo: u8, hi: u8, bit: u8) -> (r: u8)
    requires
        bit < 8,
    ensures
        r == color_num(lo, hi, bit),
        r < 4,
{
    let r = (((hi >> bit) & 1) << 1) | ((lo >> bit) & 1);
    assert(r < 4) by (bit_vector)
        requires
            r == (((hi >> bit) & 1) << 1) | ((lo >> bit) & 1),
    ;
    r
}

impl PPU {
    /// A controller at power-on: vertical blank, control 0x91, blank screen.
    pub fn new() -> (r: PPU)
        ensures
            r@ == PpuState::initial(),
            r@.wf(),
    {
        PPU {
            ppu_clock: 0,
            mode: PpuMode::VBlank,
            back_buffer: filled(WHITE, FRAME_LEN),
            vram: filled(0u8, VRAM_LEN),
            oam_mem: filled(0u8, OAM_LEN),
            lcd_control: 0x91,
            lcd_stat: 0xff,
            scy: 0,
            scx: 0,
            ly: 0,
            lyc: 0,
            bg_pallete: 0xFC,
            obj_pallete_1: 0xFF,
            obj_pallete_2: 0xFF,
            vblank_interrupt: 0,
            stat_interrupt: 0,
            frame_ready: false,
        }
    }

    fn tile_addr_exec(&self, tile: u8) -> (r: usize)
        ensures
            r == tile_addr(self.lcd_control, tile),
            r <= 0x17F0,
    {
        if test_bit_u8(self.lcd_control, 4) {
            tile as usize * 16
        } else {
            0x800 + (tile.wrapping_add(128)) as usize * 16
        }
    }

    fn bg_pixel(&self, x: usize) -> (r: u32)
        requires
            self@.wf(),
            x < 160,
        ensures
            r == self@.bg_pixel(x as int),
    {
        let line: u8 = self.ly.wrapping_add(self.scy.wrapping_add(1));
        assert(line as int == self@.bg_line());
        let base: usize = if test_bit_u8(self.lcd_control, 3) {
            0x1C00
        } else {
            0x1800
        };
        let line_row: usize = (line / 8) as usize;
        assert(line_row <= 31);
        let tile = self.vram[base + line_row * 32 + x / 8];
        let line_in_tile: usize = (line % 8) as usize;
        let addr = self.tile_addr_exec(tile) + line_in_tile * 2;
        let cn = color_num_exec(self.vram[addr], self.vram[addr + 1], (7 - x % 8) as u8);
        palette_color_exec(self.bg_pallete, cn)
    }

    fn sprite_color(&self, k: usize, x: usize) -> (r: Option<u32>)
        requires
            self@.wf(),
            k < 40,
            x < 160,
            self@.sprite_on_line(k as int),
            self@.oam[4 * k + 1] as int - 8 <= x < self@.oam[4 * k + 1] as int,
        ensures
            r == self@.sprite_color(k as int, x as int),
    {
        let y = self.oam_mem[4 * k] as usize;
        let xp1 = self.oam_mem[4 * k + 1] as usize;
        let tile0 = self.oam_mem[4 * k + 2];
        let attr = self.oam_mem[4 * k + 3];
        let size: usize = if test_bit_u8(self.lcd_control, 2) {
            16
        } else {
            8
        };
        let line0: usize = self.ly as usize + 16 - y;
        let line: usize = if test_bit_u8(attr, 6) {
            size - 1 - line0
        } else {
            line0
        };
        let tile = if size == 16 {
            if line < 8 {
                tile0 & 0xFE
            } else {
                tile0 | 0x01
            }
        } else {
            tile0
        };
        let addr = self.tile_addr_exec(tile) + (line % 8) * 2;
        let dx: usize = x + 8 - xp1;
        let col: usize = if test_bit_u8(attr, 5) {
            7 - dx
        } else {
            dx
        };
        let pal = if test_bit_u8(attr, 4) {
            self.obj_pallete_2
        } else {
            self.obj_pallete_1
        };
        let cn = color_num_exec(self.vram[addr], self.vram[addr + 1], (7 - col) as u8);
        let c = palette_color_exec(pal, cn);
        if c == WHITE {
            None
        } else {
            Some(c)
        }
    }

    /// Draws the current scanline into the frame buffer: the background when
    /// enabled, then each sprite that covers the line, in table order.
    pub fn fill_scanline(&mut self)
        requires
            old(self)@.wf(),
        ensures
            final(self)@ == (PpuState { back_buffer: old(self)@.rendered(), ..old(self)@ }),
            final(self)@.wf(),
    {
        proof {
            reveal(PpuState::rendered);
        }
        if self.ly >= 144 {
            proof {
                assert(self@ == (PpuState { back_buffer: old(self)@.rendered(), ..old(self)@ }));
            }
            return ;
        }
        let ghost p = self@;
        let row: usize = self.ly as usize * 160;
        let mut x: usize = 0;
        while x < 160
            invariant
                p.wf(),
                self@ == (PpuState { back_buffer: self@.back_buffer, ..p }),
                self@.back_buffer.len() == FRAME_LEN,
                row == p.ly as int * 160,
                p.ly < 144,
                x <= 160,
                forall|i: int|
                    0 <= i < FRAME_LEN ==> #[trigger] self@.back_buffer[i] == if row <= i < row + x {
                        p.base_pixel(i - row)
                    } else {
                        p.back_buffer[i]
                    },
            decreases 160 - x,
        {
            if test_bit_u8(self.lcd_control, 0) {
                let c = self.bg_pixel(x);
                self.back_buffer[row + x] = c;
            }
            x = x + 1;
        }
        if test_bit_u8(self.lcd_control, 1) {
            let mut k: usize = 0;
            while k < 40
                invariant
                    p.wf(),
                    self@ == (PpuState { back_buffer: self@.back_buffer, ..p }),
                    self@.back_buffer.len() == FRAME_LEN,
                    row == p.ly as int * 160,
                    p.ly < 144,
                    k <= 40,
                    forall|i: int|
                        0 <= i < FRAME_LEN ==> #[trigger] self@.back_buffer[i] == if row <= i < row
                            + 160 {
                            p.sprite_layer(k as int, i - row)
                        } else {
                            p.back_buffer[i]
                        },
                decreases 40 - k,
            {
                self.draw_sprite(k, row);
                k = k + 1;
            }
        }
        proof {
            assert(self@.back_buffer =~= p.rendered());
        }
    }

    fn draw_sprite(&mut self, k: usize, row: usize)
        requires
            old(self)@.wf(),
            k < 40,
            old(self)@.ly < 144,
            row == old(self)@.ly as int * 160,
        ensures
            final(self)@ == (PpuState { back_buffer: final(self)@.back_buffer, ..old(self)@ }),
            final(self)@.back_buffer.len() == FRAME_LEN,
            forall|i: int|
                0 <= i < FRAME_LEN ==> #[trigger] final(self)@.back_buffer[i] == if row <= i < row
                    + 160 {
                    match old(self)@.sprite_color(k as int, i - row) {
                        Some(c) => c,
                        None => old(self)@.back_buffer[i],
                    }
                } else {
                    old(self)@.back_buffer[i]
                },
    {
        let ghost p = self@;
        let y = self.oam_mem[4 * k] as usize;
        let size: usize = if test_bit_u8(self.lcd_control, 2) {
            16
        } else {
            8
        };
        let ly16 = self.ly as usize + 16;
        assert(size == p.sprite_height());
        if !(y <= ly16 && ly16 < y + size) {
            assert(!p.sprite_on_line(k as int));
            assert forall|i: int| 0 <= i < FRAME_LEN && row <= i < row + 160
                implies #[trigger] p.sprite_color(k as int, i - row) is None by {}
            return ;
        }
        let xp1 = self.oam_mem[4 * k + 1] as usize;
        let lo: usize = if xp1 >= 8 {
            xp1 - 8
        } else {
            0
        };
        let hi: usize = if xp1 < 160 {
            xp1
        } else {
            160
        };
        let mut x = lo;
        while x < hi
            invariant
                p.wf(),
                self@ == (PpuState { back_buffer: self@.back_buffer, ..p }),
                self@.back_buffer.len() == FRAME_LEN,
                k < 40,
                p.ly < 144,
                row == p.ly as int * 160,
                p.sprite_on_line(k as int),
                xp1 == p.oam[4 * k + 1],
                lo <= x,
                x <= hi || x == lo,
                lo == (if xp1 >= 8 { xp1 - 8 } else { 0 }),
                hi == (if xp1 < 160 { xp1 } else { 160 }),
                forall|i: int|
                    0 <= i < FRAME_LEN ==> #[trigger] self@.back_buffer[i] == if row + lo <= i < row
                        + x {
                        match p.sprite_color(k as int, i - row) {
                            Some(c) => c,
                            None => p.back_buffer[i],
                        }
                    } else {
                        p.back_buffer[i]
                    },
            decreases hi - x,
        {
            if let Some(c) = self.sprite_color(k, x) {
                self.back_buffer[row + x] = c;
            }
            x = x + 1;
        }
        assert forall|i: int| 0 <= i < FRAME_LEN && row <= i < row + 160 && !(row + lo <= i < row + hi)
            implies #[trigger] p.sprite_color(k as int, i - row) is None by {}
    }

    /// Marks the frame buffer as finished, for the presentation sink to pick up.
    pub fn draw_frame(&mut self)
        ensures
            final(self)@ == (PpuState { frame_ready: true, ..old(self)@ }),
    {
        self.frame_ready = true;
    }

    /// Whether a finished frame waits; the mark is cleared.
    pub fn take_frame(&mut self) -> (r: bool)
        ensures
            r == old(self)@.frame_ready,
            final(self)@ == (PpuState { frame_ready: false, ..old(self)@ }),
    {
        let r = self.frame_ready;
        self.frame_ready = false;
        r
    }

    /// The frame buffer, 160 by 144 pixels, row by row.
    pub fn frame(&self) -> (r: &Vec<u32>)
        ensures
            r@ == self@.back_buffer,
    {
        &self.back_buffer
    }

    /// Advances the scanline state machine by `m_cycles` machine cycles,
    /// drawing a scanline at the end of each drawing phase.
    pub fn ppu_step(&mut self, m_cycles: u8)
        requires
            old(self)@.wf(),
        ensures
            final(self)@ == old(self)@.step(m_cycles),
            final(self)@.wf(),
    {
        self.ppu_clock = self.ppu_clock.wrapping_add(m_cycles as u16 * 4);
        assert(self@ == (PpuState {
            clock: ((old(self)@.clock as int + m_cycles as int * 4) % 65536) as u16,
            ..old(self)@
        }));
        self.advance();
    }

    fn advance(&mut self)
        requires
            old(self)@.wf(),
        ensures
            final(self)@ == old(self)@.advance(),
            final(self)@.wf(),
    {
        reveal(PpuState::advance);
        match self.mode {
            PpuMode::Oam => {
                if self.ppu_clock >= OAM_CYCLES {
                    self.mode = PpuMode::Draw;
                    self.ppu_clock = self.ppu_clock % OAM_CYCLES;
                }
                self.stat_interrupt = 0;
            },
            PpuMode::Draw => {
                if self.ppu_clock >= DRAW_CYCLES {
                    self.end_draw();
                }
            },
            PpuMode::HBlank => {
                if self.ppu_clock >= HBLANK_CYCLES {
                    self.end_hblank();
                }
            },
            PpuMode::VBlank => {
                if self.ppu_clock >= VBLANK_CYCLES {
                    self.ppu_clock = self.ppu_clock % VBLANK_CYCLES;
                    self.ly = self.ly.wrapping_add(1);
                    if self.ly > 153 {
                        self.ly = 0;
                        self.mode = PpuMode::Oam;
                    }
                }
            },
        }
    }

    fn end_draw(&mut self)
        requires
            old(self)@.wf(),
        ensures
            final(self)@ == (PpuState {
                mode: PpuMode::HBlank,
                clock: old(self)@.clock % DRAW_CYCLES,
                back_buffer: old(self)@.rendered(),
                ..old(self)@
            }),
            final(self)@.wf(),
    {
        self.fill_scanline();
        self.mode = PpuMode::HBlank;
        self.ppu_clock = self.ppu_clock % DRAW_CYCLES;
    }

    fn end_hblank(&mut self)
        requires
            old(self)@.wf(),
        ensures
            final(self)@ == old(self)@.end_hblank(),
            final(self)@.wf(),
    {
        self.ly = self.ly.wrapping_add(1);
        self.ppu_clock = self.ppu_clock % HBLANK_CYCLES;
        self.mode = PpuMode::Oam;
        if self.ly == self.lyc {
            if test_bit_u8(self.lcd_stat, 6) {
                self.stat_interrupt = 1;
            }
            self.lcd_stat = self.lcd_stat | 0x04;
        }
        if self.ly == 143 {
            self.draw_frame();
            self.mode = PpuMode::VBlank;
            self.vblank_interrupt = 1;
        }
    }

    pub fn write_byte(&mut self, loc: u16, val: u8)
        requires
            old(self)@.wf(),
            is_ppu_addr(loc),
        ensures
            final(self)@ == old(self)@.write(loc, val),
            final(self)@.wf(),
    {
        if 0xFE00 <= loc && loc <= 0xFE9F {
            self.oam_mem[(loc - 0xFE00) as usize] = val;
        } else if loc == 0xFF40 {
            self.lcd_control = val;
        } else if loc == 0xFF41 {
            self.lcd_stat = self.lcd_stat | (val & 0xF4);
        } else if loc == 0xFF42 {
            self.scy = val;
        } else if loc == 0xFF43 {
            self.scx = val;
        } else if loc == 0xFF44 {
            self.ly = val;
        } else if loc == 0xFF45 {
            self.lyc = val;
        } else if loc == 0xFF47 {
            self.bg_pallete = val;
        } else if loc == 0xFF48 {
            self.obj_pallete_1 = val;
        } else if loc == 0xFF49 {
            self.obj_pallete_2 = val;
        } else {
            self.vram[(loc - 0x8000) as usize] = val;
        }
    }

    pub fn read_byte(&self, loc: u16) -> (r: u8)
        requires
            self@.wf(),
            is_ppu_addr(loc),
        ensures
            r == self@.read(loc),
    {
        if 0xFE00 <= loc && loc <= 0xFE9F {
            self.oam_mem[(loc - 0xFE00) as usize]
        } else if loc == 0xFF40 {
            self.lcd_control
        } else if loc == 0xFF41 {
            self.lcd_stat
        } else if loc == 0xFF42 {
            self.scy
        } else if loc == 0xFF43 {
            self.scx
        } else if loc == 0xFF44 {
            self.ly
        } else if loc == 0xFF45 {
            self.lyc
        } else if loc == 0xFF47 {
            self.bg_pallete
        } else if loc == 0xFF48 {
            self.obj_pallete_1
        } else if loc == 0xFF49 {
            self.obj_pallete_2
        } else {
            self.vram[(loc - 0x8000) as usize]
        }
    }

    /// The pending interrupt bits: vertical blank and status.
    pub fn interrupt_bits(&self) -> (r: (u8, u8))
        ensures
            r == (self@.vblank_interrupt, self@.stat_interrupt),
    {
        (self.vblank_interrupt, self.stat_interrupt)
    }

    /// Sets the pending interrupt bits.
    pub fn set_interrupt_bits(&mut self, vblank: u8, stat: u8)
        ensures
            final(self)@ == (PpuState {
                vblank_interrupt: vblank,
                stat_interrupt: stat,
                ..old(self)@
            }),
    {
        self.vblank_interrupt = vblank;
        self.stat_interrupt = stat;
    }
}

} // verus!
