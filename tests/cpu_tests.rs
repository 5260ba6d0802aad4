use rust_gb::cartridge::Cartridge;
use rust_gb::cpu::{Fault, CPU};
use rust_gb::mmu::MMU;

fn rom_with(program: &[u8]) -> Vec<u8> {
    let mut rom = vec![0u8; 0x8000];
    for (i, b) in program.iter().enumerate() {
        rom[0x100 + i] = *b;
    }
    rom
}

fn boot(program: &[u8]) -> CPU {
    let cart = Cartridge::new(&rom_with(program)).unwrap();
    CPU::new(MMU::new(cart))
}

#[test]
fn load_add_halt_scenario() {
    let mut cpu = boot(&[0x3E, 0x05, 0xC6, 0x03, 0x76]);
    assert_eq!(cpu.step(), Ok(2));
    assert_eq!(cpu.step(), Ok(2));
    assert_eq!(cpu.step(), Ok(1));
    let r = cpu.registers();
    assert_eq!(r.a, 8);
    assert!(!r.get_zero());
    assert!(!r.get_carry());
    assert!(!r.get_half());
    assert!(!r.get_neg());
    assert!(cpu.is_halted());
}

#[test]
fn inc_wraps_to_zero_scenario() {
    let mut cpu = boot(&[0x3E, 0xFF, 0x3C]);
    let carry_before = cpu.registers().get_carry();
    cpu.step().unwrap();
    cpu.step().unwrap();
    let r = cpu.registers();
    assert_eq!(r.a, 0);
    assert!(r.get_zero());
    assert!(r.get_half());
    assert!(!r.get_neg());
    assert_eq!(r.get_carry(), carry_before);
}

#[test]
fn push_pop_bc_scenario() {
    // PUSH BC ; LD BC,0x0000 ; POP BC
    let mut cpu = boot(&[0xC5, 0x01, 0x00, 0x00, 0xC1]);
    let mut r = cpu.registers();
    r.b = 0x12;
    r.c = 0x34;
    cpu.set_registers(r);
    let sp = cpu.registers().sp;
    assert_eq!(cpu.step(), Ok(4));
    assert_eq!(cpu.registers().sp, sp.wrapping_sub(2));
    cpu.step().unwrap();
    assert_eq!(cpu.registers().get_bc(), 0);
    assert_eq!(cpu.step(), Ok(3));
    assert_eq!(cpu.registers().sp, sp);
    assert_eq!(cpu.registers().get_bc(), 0x1234);
}

#[test]
fn push_then_pop_returns_value() {
    let mut cpu = boot(&[]);
    let sp = cpu.registers().sp;
    cpu.push(0xBEEF);
    assert_eq!(cpu.registers().sp, sp - 2);
    assert_eq!(cpu.mmu().read_byte(sp - 1), 0xBE);
    assert_eq!(cpu.mmu().read_byte(sp - 2), 0xEF);
    assert_eq!(cpu.pop(), 0xBEEF);
    assert_eq!(cpu.registers().sp, sp);
}

#[test]
fn jr_minus_two_loops_on_itself() {
    let mut cpu = boot(&[0x18, 0xFE]);
    assert_eq!(cpu.step(), Ok(3));
    assert_eq!(cpu.registers().pc, 0x0100);
    assert_eq!(cpu.step(), Ok(3));
    assert_eq!(cpu.registers().pc, 0x0100);
}

#[test]
fn conditional_jr_not_taken_costs_less() {
    // XOR A sets Zero; JR NZ,+5 is then not taken.
    let mut cpu = boot(&[0xAF, 0x20, 0x05]);
    cpu.step().unwrap();
    assert_eq!(cpu.step(), Ok(2));
    assert_eq!(cpu.registers().pc, 0x0103);
}

#[test]
fn undefined_opcode_is_a_fault() {
    let mut cpu = boot(&[0xD3]);
    let before = cpu.registers();
    assert_eq!(cpu.step(), Err(Fault::UnknownOpcode { op: 0xD3, pc: 0x0100 }));
    assert_eq!(cpu.registers(), before);
}

#[test]
fn call_and_ret() {
    // CALL 0x0200 ; at 0x0200: RET
    let mut prog = vec![0u8; 0x200];
    prog[0] = 0xCD;
    prog[1] = 0x00;
    prog[2] = 0x02;
    prog[0x100] = 0xC9;
    let mut cpu = boot(&prog);
    assert_eq!(cpu.step(), Ok(6));
    assert_eq!(cpu.registers().pc, 0x0200);
    assert_eq!(cpu.registers().sp, 0xFFFC);
    assert_eq!(cpu.step(), Ok(4));
    assert_eq!(cpu.registers().pc, 0x0103);
    assert_eq!(cpu.registers().sp, 0xFFFE);
}

#[test]
fn restart_pushes_next_address() {
    let mut cpu = boot(&[0xEF]);
    assert_eq!(cpu.step(), Ok(4));
    assert_eq!(cpu.registers().pc, 0x0028);
    assert_eq!(cpu.pop(), 0x0101);
}

#[test]
fn daa_after_bcd_addition() {
    // LD A,0x09 ; ADD A,0x08 ; DAA
    let mut cpu = boot(&[0x3E, 0x09, 0xC6, 0x08, 0x27]);
    for _ in 0..3 {
        cpu.step().unwrap();
    }
    assert_eq!(cpu.registers().a, 0x17);
    assert!(!cpu.registers().get_carry());
}

#[test]
fn extended_swap_bit_set_res() {
    // LD B,0xF1 ; SWAP B ; BIT 0,B ; SET 0,B ; RES 4,B
    let mut cpu = boot(&[0x06, 0xF1, 0xCB, 0x30, 0xCB, 0x40, 0xCB, 0xC0, 0xCB, 0xA0]);
    cpu.step().unwrap();
    assert_eq!(cpu.step(), Ok(2));
    assert_eq!(cpu.registers().b, 0x1F);
    cpu.step().unwrap();
    assert!(!cpu.registers().get_zero());
    assert!(cpu.registers().get_half());
    cpu.step().unwrap();
    assert_eq!(cpu.registers().b, 0x1F);
    cpu.step().unwrap();
    assert_eq!(cpu.registers().b, 0x0F);
}

#[test]
fn extended_ops_on_memory() {
    // LD HL,0xC000 ; LD (HL),0x81 ; RLC (HL) ; SET 2,(HL)
    let mut cpu = boot(&[0x21, 0x00, 0xC0, 0x36, 0x81, 0xCB, 0x06, 0xCB, 0xD6]);
    cpu.step().unwrap();
    assert_eq!(cpu.step(), Ok(3));
    assert_eq!(cpu.step(), Ok(4));
    assert_eq!(cpu.mmu().read_byte(0xC000), 0x03);
    assert!(cpu.registers().get_carry());
    cpu.step().unwrap();
    assert_eq!(cpu.mmu().read_byte(0xC000), 0x07);
}

#[test]
fn accumulator_rotate_clears_zero() {
    // XOR A ; RLCA
    let mut cpu = boot(&[0xAF, 0x07]);
    cpu.step().unwrap();
    assert!(cpu.registers().get_zero());
    cpu.step().unwrap();
    assert_eq!(cpu.registers().a, 0);
    assert!(!cpu.registers().get_zero());
}

#[test]
fn add_hl_sets_half_and_carry() {
    // LD HL,0x8FFF ; LD BC,0x8001 ; ADD HL,BC
    let mut cpu = boot(&[0x21, 0xFF, 0x8F, 0x01, 0x01, 0x80, 0x09]);
    for _ in 0..3 {
        cpu.step().unwrap();
    }
    let r = cpu.registers();
    assert_eq!(r.get_hl(), 0x1000);
    assert!(r.get_half());
    assert!(r.get_carry());
    assert!(!r.get_zero());
}

#[test]
fn pop_af_masks_low_flag_bits() {
    // LD BC,0x12FF ; PUSH BC ; POP AF
    let mut cpu = boot(&[0x01, 0xFF, 0x12, 0xC5, 0xF1]);
    for _ in 0..3 {
        cpu.step().unwrap();
    }
    assert_eq!(cpu.registers().get_af(), 0x12F0);
}

#[test]
fn serial_output_hook() {
    // LD A,0x41 ; LDH (0x01),A ; LD A,0x81 ; LDH (0x02),A
    let mut cpu = boot(&[0x3E, 0x41, 0xE0, 0x01, 0x3E, 0x81, 0xE0, 0x02]);
    assert_eq!(cpu.take_serial_output(), None);
    for _ in 0..4 {
        cpu.step().unwrap();
    }
    assert_eq!(cpu.take_serial_output(), Some(0x41));
    assert_eq!(cpu.take_serial_output(), None);
}

#[test]
fn cpu_step_advances_timer() {
    // LD A,0x05 ; LDH (0x07),A  (timer on, 16 clocks per tick) ; NOP ; NOP
    let mut cpu = boot(&[0x3E, 0x05, 0xE0, 0x07, 0x00, 0x00]);
    cpu.cpu_step().unwrap();
    cpu.cpu_step().unwrap();
    assert_eq!(cpu.mmu().read_byte(0xFF05), 0);
    assert_eq!(cpu.cpu_step(), Ok(1));
    assert_eq!(cpu.mmu().read_byte(0xFF05), 1);
    cpu.cpu_step().unwrap();
    assert_eq!(cpu.mmu().read_byte(0xFF05), 1);
}
