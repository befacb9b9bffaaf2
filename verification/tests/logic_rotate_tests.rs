//! CPL, CCF, SCF, DAA and the accumulator rotates.

use dmg_core::cpu::Cpu;

#[test]
fn cpl() {
    let mut cpu = Cpu::reset();
    cpu.registers.a = 0xAA;
    dmg_core::logic::cpl(&mut cpu);
    assert_eq!(cpu.registers.a, !0xAAu8);
}

#[test]
fn ccf() {
    let mut cpu = Cpu::reset();
    cpu.registers.f.c = false;
    dmg_core::logic::ccf(&mut cpu);
    assert!(cpu.registers.f.c);
    dmg_core::logic::ccf(&mut cpu);
    assert!(!cpu.registers.f.c);
}

#[test]
fn scf() {
    let mut cpu = Cpu::reset();
    dmg_core::logic::scf(&mut cpu);
    assert!(cpu.registers.f.c);
    cpu.registers.f.c = false;
    dmg_core::logic::scf(&mut cpu);
    assert!(cpu.registers.f.c);
}

// The decimal-adjust cases run with the flags cleared first: DAA reads N,
// H and C, and the post-reset flag byte 0xB0 would feed a half-carry and a
// carry into the adjustment.
#[test]
fn no_adjust() {
    let mut cpu = Cpu::reset();
    cpu.registers.f.set(0);
    cpu.registers.a = 0x99;
    dmg_core::logic::daa(&mut cpu);
    assert_eq!(cpu.registers.a, 0x99);
    assert!(!cpu.registers.f.c);
}

#[test]
fn adjust_lo() {
    let mut cpu = Cpu::reset();
    cpu.registers.f.set(0);
    cpu.registers.a = 0x0A;
    dmg_core::logic::daa(&mut cpu);
    assert_eq!(cpu.registers.a, 0x10);
    assert!(!cpu.registers.f.c);
}

#[test]
fn adjust_hi() {
    let mut cpu = Cpu::reset();
    cpu.registers.f.set(0);
    cpu.registers.a = 0xA0;
    dmg_core::logic::daa(&mut cpu);
    assert_eq!(cpu.registers.a, 0x00);
    assert!(cpu.registers.f.c);
}

#[test]
fn adjust_both() {
    let mut cpu = Cpu::reset();
    cpu.registers.f.set(0);
    cpu.registers.a = 0xAB;
    dmg_core::logic::daa(&mut cpu);
    assert_eq!(cpu.registers.a, 0x11);
    assert!(cpu.registers.f.c);
}

#[test]
fn daa_after_subtraction() {
    let mut cpu = Cpu::reset();
    cpu.registers.f.set(0);
    cpu.registers.a = 0x42;
    cpu.write_byte(0x09, cpu.registers.pc + 1);
    dmg_core::sub::imm(&mut cpu);
    assert_eq!(cpu.registers.a, 0x39);
    dmg_core::logic::daa(&mut cpu);
    assert_eq!(cpu.registers.a, 0x33);
}

#[test]
fn rlca() {
    let mut cpu = Cpu::reset();
    cpu.registers.a = 0b1010_1010;
    dmg_core::rotate::rlca(&mut cpu);
    assert!(cpu.registers.f.c);
    assert_eq!(cpu.registers.a, 0b0101_0101);
}

#[test]
fn rrca() {
    let mut cpu = Cpu::reset();
    cpu.registers.f.c = true;  // set to make sure it changes
    cpu.registers.a = 0b1010_1010;
    dmg_core::rotate::rrca(&mut cpu);
    assert!(!cpu.registers.f.c);
    assert_eq!(cpu.registers.a, 0b0101_0101);
}

#[test]
fn rla() {
    let mut cpu = Cpu::reset();
    cpu.registers.f.set(0);
    cpu.registers.a = 0b1010_1010;
    dmg_core::rotate::rla(&mut cpu);
    assert!(cpu.registers.f.c);
    assert_eq!(cpu.registers.a, 0b0101_0100);
}

#[test]
fn rra() {
    let mut cpu = Cpu::reset();
    cpu.registers.f.c = true;  // set to make sure it changes
    cpu.registers.a = 0b1010_1010;
    dmg_core::rotate::rra(&mut cpu);
    assert!(!cpu.registers.f.c);
    assert_eq!(cpu.registers.a, 0b1101_0101);
}

/// The rotates clear Z even when the result is zero.
#[test]
fn rotate_clears_zero_flag() {
    let mut cpu = Cpu::reset();
    cpu.registers.f.z = true;
    cpu.registers.a = 0;
    dmg_core::rotate::rlca(&mut cpu);
    assert_eq!(cpu.registers.a, 0);
    assert!(!cpu.registers.f.z);
}
