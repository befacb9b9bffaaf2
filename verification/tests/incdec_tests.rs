//! INC and DEC on SP, on the byte at HL, and the standalone increment of C.

use dmg_core::cpu::Cpu;

#[test]
fn inc_simple_inc() {
    let mut cpu = Cpu::reset();
    cpu.registers.sp = 3;
    dmg_core::inc::sp(&mut cpu);
    assert_eq!(cpu.registers.sp, 4);
}

#[test]
fn inc_overflow_zero() {
    let mut cpu = Cpu::reset();
    cpu.registers.sp = 0xFF_FF;
    dmg_core::inc::sp(&mut cpu);
    assert_eq!(cpu.registers.sp, 0);
}

fn inc_hl_setup(init: u8, addr: u16) -> Cpu {
    let mut cpu = Cpu::reset();
    cpu.registers.put_hl(addr);
    cpu.write_byte(init, addr);
    dmg_core::inc::hl_ind(&mut cpu);
    cpu
}

#[test]
fn simple_inc() {
    let cpu = inc_hl_setup(3, 0x100);
    assert_eq!(cpu.read_byte(0x100), 4);
    assert!(!cpu.registers.f.z);
    assert!(!cpu.registers.f.n);
    assert!(!cpu.registers.f.h);
}

#[test]
fn inc_half_carry() {
    let cpu = inc_hl_setup(0x0F, 0x100);
    assert_eq!(cpu.read_byte(0x100), 0x10);
    assert!(!cpu.registers.f.z);
    assert!(!cpu.registers.f.n);
    assert!(cpu.registers.f.h);
}

#[test]
fn overflow_zero() {
    let cpu = inc_hl_setup(0xFF, 0x100);
    assert_eq!(cpu.read_byte(0x100), 0x00);
    assert!(cpu.registers.f.z);
    assert!(!cpu.registers.f.n);
    assert!(cpu.registers.f.h);
}

#[test]
fn dec_simple_dec() {
    let mut cpu = Cpu::reset();
    cpu.registers.sp = 3;
    dmg_core::dec::sp(&mut cpu);
    assert_eq!(cpu.registers.sp, 2);
}

#[test]
fn dec_underflow_zero() {
    let mut cpu = Cpu::reset();
    cpu.registers.sp = 0;
    dmg_core::dec::sp(&mut cpu);
    assert_eq!(cpu.registers.sp, 0xFF_FF);
}

fn dec_hl_setup(init: u8, addr: u16) -> Cpu {
    let mut cpu = Cpu::reset();
    cpu.registers.put_hl(addr);
    cpu.write_byte(init, addr);
    dmg_core::dec::hl_ind(&mut cpu);
    cpu
}

#[test]
fn simple_dec() {
    let cpu = dec_hl_setup(3, 0x100);
    assert_eq!(cpu.read_byte(0x100), 2);
    assert!(!cpu.registers.f.z);
    assert!(cpu.registers.f.n);
    assert!(!cpu.registers.f.h);
}

#[test]
fn dec_half_carry() {
    let cpu = dec_hl_setup(0xF0, 0x100);
    assert_eq!(cpu.read_byte(0x100), 0xEF);
    assert!(!cpu.registers.f.z);
    assert!(cpu.registers.f.n);
    assert!(cpu.registers.f.h);
}

#[test]
fn underflow_zero() {
    let cpu = dec_hl_setup(0, 0x100);
    assert_eq!(cpu.read_byte(0x100), 0xFF);
    assert!(!cpu.registers.f.z);
    assert!(cpu.registers.f.n);
    assert!(cpu.registers.f.h);
}

#[test]
fn functionality() {
    let mut cpu = Cpu::reset();
    cpu.registers.c = 0;
    cpu.registers.f.z = false;
    cpu.registers.f.h = false;
    dmg_core::inc_c::inc_c(&mut cpu);
    assert_eq!(cpu.registers.c, 1);
    assert!(!cpu.registers.f.z);
    assert!(!cpu.registers.f.n);
    assert!(!cpu.registers.f.h);
}

#[test]
fn inc_c_half_carry() {
    let mut cpu = Cpu::reset();
    cpu.registers.c = 0x0F;
    cpu.registers.f.z = false;
    dmg_core::inc_c::inc_c(&mut cpu);
    assert_eq!(cpu.registers.c, 0x10);
    assert!(!cpu.registers.f.z);
    assert!(cpu.registers.f.h);
}

#[test]
fn wrapping() {
    let mut cpu = Cpu::reset();
    cpu.registers.c = 0xFF;
    dmg_core::inc_c::inc_c(&mut cpu);
    assert_eq!(cpu.registers.c, 0);
    assert!(cpu.registers.f.z);
    assert!(cpu.registers.f.h);
}
