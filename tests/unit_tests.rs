use rust_gb::alu::{
    alu_add, alu_adc, alu_addnn, alu_add_sp, alu_and, alu_bit, alu_daa, alu_dec, alu_inc, alu_or,
    alu_res, alu_rlc, alu_rrc, alu_sbc, alu_set, alu_sla, alu_sra, alu_srl, alu_sub, alu_swap, alu_xor,
};
use rust_gb::cartridge::{Cartridge, RomError};
use rust_gb::instructions::InstructionMap;
use rust_gb::mmu::MMU;
use rust_gb::ppu::PPU;
use rust_gb::registers::{Flags, Registers};
use rust_gb::timer::Timer;
use rust_gb::util::{set_bit_u8, test_bit_u8};

const NO_FLAGS: Flags = Flags { zero: false, neg: false, half: false, carry: false };

#[test]
fn add_then_sub_restores_for_all_bytes() {
    for a in 0..=255u8 {
        for n in 0..=255u8 {
            assert_eq!(alu_sub(alu_add(a, n).value, n).value, a);
        }
    }
}

#[test]
fn add_flags_exact() {
    let r = alu_add(0x3A, 0xC6);
    assert_eq!(r.value, 0x00);
    assert!(r.flags.zero && r.flags.half && r.flags.carry && !r.flags.neg);
    let r = alu_add(0x05, 0x03);
    assert_eq!(r.value, 0x08);
    assert!(!r.flags.zero && !r.flags.half && !r.flags.carry);
    let r = alu_adc(0x0F, 0x00, true);
    assert_eq!(r.value, 0x10);
    assert!(r.flags.half && !r.flags.carry);
}

#[test]
fn carry_and_half_follow_their_rules() {
    for a in 0..=255u8 {
        for n in 0..=255u8 {
            let s = alu_add(a, n);
            assert_eq!(s.flags.carry, (a as u16 + n as u16) > 0xFF);
            assert_eq!(s.flags.half, ((a & 0xF) + (n & 0xF)) > 0xF);
            assert_eq!(s.flags.zero, s.value == 0);
            let d = alu_sub(a, n);
            assert_eq!(d.flags.carry, a < n);
            assert_eq!(d.flags.zero, d.value == 0);
        }
    }
}

#[test]
fn sub_and_sbc_exact() {
    let r = alu_sub(0x3E, 0x0F);
    assert_eq!(r.value, 0x2F);
    assert!(r.flags.half && !r.flags.carry && r.flags.neg);
    let r = alu_sbc(0x00, 0xFF, true);
    assert_eq!(r.value, 0x00);
    assert!(r.flags.zero && r.flags.carry && r.flags.half);
}

#[test]
fn logic_ops_exact() {
    let r = alu_and(0x5A, 0x3F);
    assert_eq!(r.value, 0x1A);
    assert!(r.flags.half && !r.flags.carry);
    let r = alu_or(0x00, 0x00);
    assert!(r.flags.zero && !r.flags.half);
    let r = alu_xor(0xFF, 0x0F);
    assert_eq!(r.value, 0xF0);
}

#[test]
fn inc_dec_keep_carry() {
    let c = Flags { carry: true, ..NO_FLAGS };
    let r = alu_inc(0x0F, c);
    assert_eq!(r.value, 0x10);
    assert!(r.flags.half && r.flags.carry && !r.flags.zero);
    let r = alu_dec(0x10, NO_FLAGS);
    assert_eq!(r.value, 0x0F);
    assert!(r.flags.half && r.flags.neg && !r.flags.carry);
    let r = alu_dec(0x01, NO_FLAGS);
    assert!(r.flags.zero);
}

#[test]
fn sixteen_bit_additions() {
    let r = alu_addnn(0x0FFF, 0x0001, NO_FLAGS);
    assert_eq!(r.value, 0x1000);
    assert!(r.flags.half && !r.flags.carry && !r.flags.zero);
    let r = alu_addnn(0xFFFF, 0x0001, Flags { neg: true, ..NO_FLAGS });
    assert_eq!(r.value, 0x0000);
    assert!(r.flags.carry && !r.flags.zero && r.flags.neg);
    let r = alu_add_sp(0xFFF8, 0x08);
    assert_eq!(r.value, 0x0000);
    assert!(r.flags.half && r.flags.carry);
    let r = alu_add_sp(0x1000, 0xFE);
    assert_eq!(r.value, 0x0FFE);
}

#[test]
fn rotate_round_trip_for_all_bytes() {
    for v in 0..=255u8 {
        assert_eq!(alu_rrc(alu_rlc(v).value).value, v);
    }
    let r = alu_rlc(0x85);
    assert_eq!(r.value, 0x0B);
    assert!(r.flags.carry);
}

#[test]
fn shifts_and_swap() {
    assert_eq!(alu_sla(0x81).value, 0x02);
    assert!(alu_sla(0x81).flags.carry);
    assert_eq!(alu_sra(0x81).value, 0xC0);
    assert_eq!(alu_srl(0x81).value, 0x40);
    assert_eq!(alu_swap(0xA5).value, 0x5A);
    assert!(alu_swap(0x00).flags.zero);
}

#[test]
fn bit_set_res() {
    let f = alu_bit(3, 0x08, Flags { carry: true, ..NO_FLAGS });
    assert!(!f.zero && f.half && f.carry && !f.neg);
    assert!(alu_bit(4, 0x08, NO_FLAGS).zero);
    assert_eq!(alu_set(7, 0x01), 0x81);
    assert_eq!(alu_res(0, 0x81), 0x80);
}

#[test]
fn daa_adjusts() {
    let r = alu_daa(0x9A, NO_FLAGS);
    assert_eq!(r.value, 0x00);
    assert!(r.flags.zero && r.flags.carry);
    let r = alu_daa(0x0F, Flags { neg: true, half: true, ..NO_FLAGS });
    assert_eq!(r.value, 0x09);
}

#[test]
fn registers_power_on_and_pairs() {
    let mut r = Registers::new();
    assert_eq!(r.get_af(), 0x01B0);
    assert_eq!(r.get_bc(), 0x0013);
    assert_eq!(r.get_de(), 0x00D8);
    assert_eq!(r.get_hl(), 0x014D);
    assert_eq!(r.sp, 0xFFFE);
    assert_eq!(r.pc, 0x0100);
    r.set_bc(0x1234);
    assert_eq!((r.b, r.c), (0x12, 0x34));
    r.set_de(0xABCD);
    assert_eq!(r.get_de(), 0xABCD);
    r.set_af(0x12FF);
    assert_eq!(r.f, 0xF0);
    r.set_hl(0x0000);
    assert_eq!(r.get_hld(), 0x0000);
    assert_eq!(r.get_hl(), 0xFFFF);
}

#[test]
fn flag_setters() {
    let mut r = Registers::new();
    r.f = 0;
    r.set_zero(true);
    assert_eq!(r.f, 0x80);
    r.set_neg(true);
    r.set_half(true);
    r.set_carry(true);
    assert_eq!(r.f, 0xF0);
    r.set_half(false);
    assert_eq!(r.f, 0xD0);
    assert!(r.get_zero() && r.get_neg() && !r.get_half() && r.get_carry());
}

#[test]
fn bit_helpers() {
    assert!(test_bit_u8(0x20, 5));
    assert!(!test_bit_u8(0x20, 4));
    let mut v = 0x01u8;
    set_bit_u8(&mut v, 7);
    assert_eq!(v, 0x81);
}

fn mbc1_rom() -> Vec<u8> {
    let mut rom = vec![0u8; 0x10000];
    rom[0x147] = 0x01;
    rom[0x148] = 0x01;
    for bank in 0..4usize {
        rom[bank * 0x4000 + 0x10] = bank as u8 + 0xA0;
    }
    rom
}

#[test]
fn bank_select_zero_means_one() {
    let mut cart = Cartridge::new(&mbc1_rom()).unwrap();
    assert_eq!(cart.read_byte(0x4010), 0xA1);
    cart.write_byte(0x2000, 0x02);
    assert_eq!(cart.read_byte(0x4010), 0xA2);
    cart.write_byte(0x2000, 0x00);
    assert_eq!(cart.read_byte(0x4010), 0xA1);
    cart.write_byte(0x3FFF, 0x03);
    assert_eq!(cart.read_byte(0x4010), 0xA3);
    cart.write_byte(0x3FFF, 0x20);
    assert_eq!(cart.read_byte(0x4010), 0xA1);
    assert_eq!(cart.read_byte(0x0010), 0xA0);
}

#[test]
fn bank_number_wraps_at_rom_size() {
    let mut cart = Cartridge::new(&mbc1_rom()).unwrap();
    cart.write_byte(0x2000, 0x06);
    assert_eq!(cart.read_byte(0x4010), 0xA2);
}

#[test]
fn no_mbc_ignores_writes() {
    let mut rom = vec![0u8; 0x8000];
    rom[0x2000] = 0x55;
    let mut cart = Cartridge::new(&rom).unwrap();
    cart.write_byte(0x2000, 0x01);
    assert_eq!(cart.read_byte(0x2000), 0x55);
}

#[test]
fn rom_errors() {
    assert_eq!(Cartridge::new(&vec![0u8; 0x100]).err(), Some(RomError::TruncatedHeader));
    let mut rom = vec![0u8; 0x8000];
    rom[0x148] = 9;
    assert_eq!(Cartridge::new(&rom).err(), Some(RomError::UnsupportedRomSize { code: 9 }));
}

#[test]
fn short_image_is_padded() {
    let mut rom = vec![0x11u8; 0x200];
    rom[0x148] = 0;
    let cart = Cartridge::new(&rom).unwrap();
    assert_eq!(cart.read_byte(0x01FF), 0x11);
    assert_eq!(cart.read_byte(0x0200), 0x00);
}

#[test]
fn timer_registers_and_overflow() {
    let mut t = Timer::new();
    t.write_byte(0xFF06, 0x40);
    t.write_byte(0xFF05, 0xFF);
    t.write_byte(0xFF07, 0x05);
    assert_eq!(t.read_byte(0xFF07), 0x05);
    t.step_cycle(4);
    assert_eq!(t.read_byte(0xFF05), 0x40);
    assert_eq!(t.interrupt, 1);
    t.step_cycle(64);
    assert_eq!(t.read_byte(0xFF04), 1);
    t.write_byte(0xFF04, 0x77);
    assert_eq!(t.read_byte(0xFF04), 0);
    t.write_byte(0xFF0F, 0x00);
    assert_eq!(t.interrupt, 0);
}

#[test]
fn ppu_registers() {
    let mut p = PPU::new();
    p.write_byte(0xFF40, 0x12);
    assert_eq!(p.read_byte(0xFF40), 0x12);
    p.write_byte(0x8001, 0x99);
    assert_eq!(p.read_byte(0x8001), 0x99);
    p.write_byte(0xFE9F, 0x42);
    assert_eq!(p.read_byte(0xFE9F), 0x42);
    p.write_byte(0xFF41, 0x00);
    assert_eq!(p.read_byte(0xFF41), 0xFF);
}

#[test]
fn ppu_draws_background_line() {
    let mut p = PPU::new();
    p.write_byte(0xFF40, 0x91);
    p.write_byte(0xFF47, 0xE4);
    // Tile 0, row 1 (the background line of scanline 0 is 1): all colour 3.
    p.write_byte(0x8002, 0xFF);
    p.write_byte(0x8003, 0xFF);
    p.fill_scanline();
    assert_eq!(p.frame()[0], 0);
    assert_eq!(p.frame()[159], 0);
    assert_eq!(p.frame()[160], 0x00ffffff);
}

#[test]
fn ppu_mode_cycle() {
    let mut p = PPU::new();
    // Vertical blank: 456 clocks (114 machine cycles) per line, up to line 153.
    for _ in 0..154 {
        p.ppu_step(114);
    }
    assert_eq!(p.read_byte(0xFF44), 0);
    p.ppu_step(20);
    p.ppu_step(43);
    p.ppu_step(51);
    assert_eq!(p.read_byte(0xFF44), 1);
    assert!(!p.take_frame());
}

#[test]
fn mmu_routes_and_composes_interrupts() {
    let cart = Cartridge::new(&vec![0u8; 0x8000]).unwrap();
    let mut m = MMU::new(cart);
    m.write_byte(0xC000, 0x5A);
    assert_eq!(m.read_byte(0xC000), 0x5A);
    m.write_word(0xC010, 0xBEEF);
    assert_eq!(m.read_word(0xC010), 0xBEEF);
    assert_eq!(m.read_byte(0xC010), 0xEF);
    assert_eq!(m.read_byte(0xFF0F), 0xE0);
    m.write_byte(0xFF0F, 0x0F);
    assert_eq!(m.read_byte(0xFF0F), 0xEF);
    m.write_byte(0xFF0F, 0x04);
    assert_eq!(m.read_byte(0xFF0F), 0xE4);
    assert_eq!(m.read_byte(0xFF4D), 0xFF);
    m.write_byte(0x1000, 0x33);
    assert_eq!(m.read_byte(0x1000), 0x00);
}

#[test]
fn mmu_joypad() {
    let cart = Cartridge::new(&vec![0u8; 0x8000]).unwrap();
    let mut m = MMU::new(cart);
    m.set_joypad_keys(0x21);
    m.write_byte(0xFF00, 0x10);
    assert_eq!(m.read_byte(0xFF00), 0xFD);
    m.write_byte(0xFF00, 0x20);
    assert_eq!(m.read_byte(0xFF00), 0xFE);
}

#[test]
fn instruction_map_lookup() {
    let m = InstructionMap::new();
    assert_eq!(m.get(0x00), Some("NOP"));
    assert_eq!(m.get(0x04), Some("INC B"));
    assert_eq!(m.get(0x05), None);
}

#[test]
fn ppu_draws_sprite_over_background() {
    let mut p = PPU::new();
    p.write_byte(0xFF40, 0x93);
    p.write_byte(0xFF47, 0xFC);
    p.write_byte(0xFF48, 0xE4);
    p.write_byte(0x8010, 0x80);
    p.write_byte(0x8011, 0x00);
    p.write_byte(0xFE00, 16);
    p.write_byte(0xFE01, 8);
    p.write_byte(0xFE02, 1);
    p.write_byte(0xFE03, 0);
    // A second sprite, mirrored, four pixels to the right.
    p.write_byte(0xFE04, 16);
    p.write_byte(0xFE05, 12);
    p.write_byte(0xFE06, 1);
    p.write_byte(0xFE07, 0x20);
    p.fill_scanline();
    assert_eq!(p.frame()[0], 0x00A0A0A0);
    assert_eq!(p.frame()[1], 0x00ffffff);
    assert_eq!(p.frame()[11], 0x00A0A0A0);
    assert_eq!(p.frame()[10], 0x00ffffff);
    assert_eq!(p.frame()[160], 0x00ffffff);
}

#[test]
fn ppu_finishes_frame_at_last_line() {
    let mut p = PPU::new();
    for _ in 0..154 {
        p.ppu_step(114);
    }
    // Lines 0 to 142: OAM (20), drawing (43), horizontal blank (51).
    for _ in 0..143 {
        p.ppu_step(20);
        p.ppu_step(43);
        p.ppu_step(51);
    }
    assert_eq!(p.read_byte(0xFF44), 143);
    assert!(p.take_frame());
    assert!(!p.take_frame());
}
