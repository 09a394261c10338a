use gbemulib::cartridge::Cartridge;
use gbemulib::cpu::register::Register;
use gbemulib::cpu::{Cpu, GBModel};

/// A 32 KiB ROM-only cartridge image whose code at 0x100 is `program`.
fn rom_with_program(program: &[u8]) -> Vec<u8> {
    let mut rom = vec![0u8; 0x8000];
    for (i, b) in program.iter().enumerate() {
        rom[0x100 + i] = *b;
    }
    for (i, b) in b"TESTROM".iter().enumerate() {
        rom[0x134 + i] = *b;
    }
    let mut x: u8 = 0;
    for i in 0x134..=0x14C {
        x = x.wrapping_sub(rom[i]).wrapping_sub(1);
    }
    rom[0x14D] = x;
    rom
}

fn cpu_running(program: &[u8]) -> Cpu {
    let rom = rom_with_program(program);
    assert!(Cartridge::check_rom(&rom).is_ok());
    Cpu::new(Cartridge::from_bytes(&rom, 0), GBModel::DMG)
}

fn run(cpu: &mut Cpu, steps: usize) {
    for _ in 0..steps {
        assert!(cpu.can_step());
        cpu.step();
    }
}

#[test]
fn boot_state_without_boot_rom() {
    let cpu = cpu_running(&[0x00]);
    assert_eq!(cpu.af.full(), 0x01B0);
    assert_eq!(cpu.bc.full(), 0x0013);
    assert_eq!(cpu.de.full(), 0x00D8);
    assert_eq!(cpu.hl.full(), 0x014D);
    assert_eq!(cpu.pc.full(), 0x0100);
    assert_eq!(cpu.sp.full(), 0xFFFE);
    assert_eq!(cpu.read_byte(0xFF40), 0x91);
}

#[test]
fn pop_returns_what_push_stored() {
    // LD SP,0xD000; LD BC,0x1234; PUSH BC; POP DE
    let mut cpu = cpu_running(&[0x31, 0x00, 0xD0, 0x01, 0x34, 0x12, 0xC5, 0xD1]);
    run(&mut cpu, 4);
    assert_eq!(cpu.de.full(), 0x1234);
    assert_eq!(cpu.sp.full(), 0xD000);
    assert_eq!(cpu.read_byte(0xCFFF), 0x12);
    assert_eq!(cpu.read_byte(0xCFFE), 0x34);
}

#[test]
fn add_and_sub_flags() {
    // LD A,0x0F; ADD A,0x01 -> 0x10, H set
    let mut cpu = cpu_running(&[0x3E, 0x0F, 0xC6, 0x01]);
    run(&mut cpu, 2);
    assert_eq!(cpu.af.hi(), 0x10);
    assert_eq!(cpu.af.lo(), 0x20);
    // LD A,0xFF; ADD A,0x01 -> 0x00, Z H C set
    let mut cpu = cpu_running(&[0x3E, 0xFF, 0xC6, 0x01]);
    run(&mut cpu, 2);
    assert_eq!(cpu.af.hi(), 0x00);
    assert_eq!(cpu.af.lo(), 0xB0);
    // LD A,0x10; SUB A,0x20 -> 0xF0, N C set
    let mut cpu = cpu_running(&[0x3E, 0x10, 0xD6, 0x20]);
    run(&mut cpu, 2);
    assert_eq!(cpu.af.hi(), 0xF0);
    assert_eq!(cpu.af.lo(), 0x50);
    // CP leaves A: LD A,5; CP 5 -> Z N
    let mut cpu = cpu_running(&[0x3E, 0x05, 0xFE, 0x05]);
    run(&mut cpu, 2);
    assert_eq!(cpu.af.hi(), 0x05);
    assert_eq!(cpu.af.lo(), 0xC0);
}

#[test]
fn daa_adjusts_bcd() {
    // LD A,0x45; ADD A,0x38 -> 0x7D; DAA -> 0x83
    let mut cpu = cpu_running(&[0x3E, 0x45, 0xC6, 0x38, 0x27]);
    run(&mut cpu, 3);
    assert_eq!(cpu.af.hi(), 0x83);
    assert_eq!(cpu.af.lo() & 0x10, 0);
}

#[test]
fn relative_jump_backwards() {
    // NOP; NOP; JR -4 (to 0x100)
    let mut cpu = cpu_running(&[0x00, 0x00, 0x18, 0xFC]);
    run(&mut cpu, 3);
    assert_eq!(cpu.pc.full(), 0x0100);
}

#[test]
fn call_and_return() {
    // CALL 0x0110 ... at 0x110: LD B,0x42; RET
    let mut program = vec![0u8; 0x20];
    program[0] = 0xCD;
    program[1] = 0x10;
    program[2] = 0x01;
    program[0x10] = 0x06;
    program[0x11] = 0x42;
    program[0x12] = 0xC9;
    let mut cpu = cpu_running(&program);
    run(&mut cpu, 1);
    assert_eq!(cpu.pc.full(), 0x0110);
    assert_eq!(cpu.sp.full(), 0xFFFC);
    run(&mut cpu, 2);
    assert_eq!(cpu.bc.hi(), 0x42);
    assert_eq!(cpu.pc.full(), 0x0103);
    assert_eq!(cpu.sp.full(), 0xFFFE);
}

#[test]
fn cb_rotate_bit_and_set() {
    // LD B,0x81; RLC B -> 0x03 C; BIT 7,B -> Z; SET 7,B -> 0x83; SWAP B -> 0x38
    let mut cpu = cpu_running(&[0x06, 0x81, 0xCB, 0x00, 0xCB, 0x78, 0xCB, 0xF8, 0xCB, 0x30]);
    run(&mut cpu, 2);
    assert_eq!(cpu.bc.hi(), 0x03);
    assert_eq!(cpu.af.lo(), 0x10);
    run(&mut cpu, 1);
    assert_eq!(cpu.af.lo() & 0x80, 0x80);
    run(&mut cpu, 1);
    assert_eq!(cpu.bc.hi(), 0x83);
    run(&mut cpu, 1);
    assert_eq!(cpu.bc.hi(), 0x38);
}

#[test]
fn memory_through_hl() {
    // LD HL,0xC100; LD (HL+),A with A=0x01 (boot); INC (HL); LD A,(HL-)
    let mut cpu = cpu_running(&[0x21, 0x00, 0xC1, 0x22, 0x34, 0x3A]);
    run(&mut cpu, 4);
    assert_eq!(cpu.read_byte(0xC100), 0x01);
    assert_eq!(cpu.read_byte(0xC101), 0x01);
    assert_eq!(cpu.af.hi(), 0x01);
    assert_eq!(cpu.hl.full(), 0xC100);
}

#[test]
fn echo_ram_and_high_ram() {
    // LD A,0x5A; LD (0xC123),A; LD A,(0xE123)
    let mut cpu = cpu_running(&[0x3E, 0x5A, 0xEA, 0x23, 0xC1, 0x3E, 0x00, 0xFA, 0x23, 0xE1]);
    run(&mut cpu, 4);
    assert_eq!(cpu.af.hi(), 0x5A);
    assert_eq!(cpu.read_byte(0xFEA0), 0xFF);
    // LDH (0x80),A; IF reads with its upper bits set
    let mut cpu = cpu_running(&[0x3E, 0x77, 0xE0, 0x80, 0x3E, 0x01, 0xE0, 0x0F]);
    run(&mut cpu, 4);
    assert_eq!(cpu.read_byte(0xFF80), 0x77);
    assert_eq!(cpu.read_byte(0xFF0F) & 0xE1, 0xE1);
}

#[test]
fn interrupt_is_serviced() {
    // IE = 0x04 (timer); EI; IF = 0x04 written; the next cycle jumps to 0x50
    let mut cpu = cpu_running(&[0x3E, 0x04, 0xE0, 0xFF, 0xFB, 0xE0, 0x0F, 0x00, 0x00]);
    run(&mut cpu, 3);
    assert!(!cpu.ime);
    assert!(cpu.scheduled_ei);
    // EI takes effect before the next instruction, which requests the
    // interrupt; it is serviced in the same cycle
    run(&mut cpu, 1);
    assert_eq!(cpu.pc.full(), 0x0050);
    assert!(!cpu.ime);
    assert_eq!(cpu.read_byte(0xFF0F) & 0x04, 0);
    assert_eq!(cpu.read_byte(0xFFFC), 0x07);
    assert_eq!(cpu.read_byte(0xFFFD), 0x01);
}

#[test]
fn halt_and_stop() {
    // HALT with no interrupt pending keeps PC; STOP cannot run
    let mut cpu = cpu_running(&[0x76, 0x10, 0x00]);
    run(&mut cpu, 3);
    assert_eq!(cpu.pc.full(), 0x0101);
    assert!(cpu.halted);
    let cpu = cpu_running(&[0x10, 0x00]);
    assert!(!cpu.can_step());
}

#[test]
fn serial_output_collects_bytes() {
    // LD A,'P'; LDH (0x01),A; LD A,'a'; LDH (0x01),A
    let mut cpu = cpu_running(&[0x3E, b'P', 0xE0, 0x01, 0x3E, b'a', 0xE0, 0x01]);
    run(&mut cpu, 4);
    assert_eq!(cpu.get_serial_output(), b"Pa".to_vec());
}

#[test]
fn register_halves() {
    let mut r = Register(0x1234);
    assert_eq!(r.hi(), 0x12);
    assert_eq!(r.lo(), 0x34);
    r.set_hi(0xAB);
    assert_eq!(r.full(), 0xAB34);
    r.set_lo(0xCD);
    assert_eq!(r.full(), 0xABCD);
    r.set_bit(4, false);
    assert_eq!(r.full(), 0xABCD);
    r.set_bit(1, true);
    assert_eq!(r.full(), 0xABCF);
    assert!(r.bit(15));
    assert!(!r.bit(4));
}
