//! The eight-bit and sixteen-bit arithmetic instructions.

use dmg_core::cpu::Cpu;
use dmg_core::opcodes::Argument;

#[test]
fn adc_a() {
    let mut cpu = Cpu::reset();
    cpu.registers.a = 0x0F;
    cpu.registers.f.c = true;
    dmg_core::adc::a::a(&mut cpu);
    assert_eq!(cpu.registers.a, 0x0F + 0x0F + 1);
    assert!(!cpu.registers.f.z);
    assert!(!cpu.registers.f.n);
    assert!(!cpu.registers.f.c);
    assert!(cpu.registers.f.h);
}

#[test]
fn adc_imm() {
    let mut cpu = Cpu::reset();
    cpu.registers.a = 0x0F;
    cpu.registers.f.c = true;
    cpu.current_argument = Some(Argument::Byte(1));
    dmg_core::adc::a::imm(&mut cpu);
    assert_eq!(cpu.registers.a, 0x0F + 0x01 + 1);
    assert!(!cpu.registers.f.z);
    assert!(!cpu.registers.f.n);
    assert!(!cpu.registers.f.c);
    assert!(cpu.registers.f.h);
}

#[test]
fn hl_ind() {
    let mut cpu = Cpu::reset();
    cpu.registers.a = 0x0F;
    cpu.registers.f.c = true;
    cpu.registers.put_hl(0xBEEF);
    cpu.write_byte(0x01, cpu.registers.hl());
    dmg_core::adc::a::hl_ind(&mut cpu);
    assert_eq!(cpu.registers.a, 0x0F + 0x01 + 1);
    assert!(!cpu.registers.f.z);
    assert!(!cpu.registers.f.n);
    assert!(!cpu.registers.f.c);
    assert!(cpu.registers.f.h);
}

#[test]
fn a() {
    let mut cpu = Cpu::reset();
    cpu.registers.a = 0x0F;
    dmg_core::add::a::a(&mut cpu);
    assert_eq!(cpu.registers.a, 0x0F + 0x0F);
    assert!(!cpu.registers.f.z);
    assert!(!cpu.registers.f.n);
    assert!(!cpu.registers.f.c);
    assert!(cpu.registers.f.h);
}

#[test]
fn add_imm() {
    let mut cpu = Cpu::reset();
    cpu.registers.a = 0x0F;
    cpu.current_argument = Some(Argument::Byte(1));
    dmg_core::add::a::imm(&mut cpu);
    assert_eq!(cpu.registers.a, 0x0F + 0x01);
    assert!(!cpu.registers.f.z);
    assert!(!cpu.registers.f.n);
    assert!(!cpu.registers.f.c);
    assert!(cpu.registers.f.h);
}

#[test]
fn add_hl() {
    let mut cpu = Cpu::reset();
    cpu.registers.put_hl(0xBAD);
    dmg_core::add::hl::hl(&mut cpu);
    assert_eq!(cpu.registers.hl(), 2 * 0xBAD);
    assert!(!cpu.registers.f.n);
    assert!(!cpu.registers.f.c);
    assert!(cpu.registers.f.h);
}

#[test]
fn add_sp() {
    let mut cpu = Cpu::reset();
    cpu.registers.put_hl(0xBAD);
    cpu.registers.sp = 0xBEEF;
    dmg_core::add::hl::sp(&mut cpu);
    assert_eq!(cpu.registers.hl(), 0xBAD + 0xBEEF);
    assert!(!cpu.registers.f.n);
    assert!(!cpu.registers.f.c);
    assert!(cpu.registers.f.h);
}

#[test]
fn r8() {
    let mut cpu = Cpu::reset();
    let value: u8 = 0xFF;
    cpu.registers.sp = 0xBEEF;
    cpu.current_argument = Some(Argument::Byte(value));
    dmg_core::add::sp::r8(&mut cpu);
    assert_eq!(cpu.registers.sp, 0xBEEE);
    assert!(!cpu.registers.f.z);
    assert!(!cpu.registers.f.n);
    assert!(cpu.registers.f.c);
    assert!(!cpu.registers.f.h);
}

fn sub_setup(minuend: u8, subtrahend: u8, cpu: &mut Cpu) {
    cpu.registers.a = minuend;
    cpu.write_byte(subtrahend, cpu.registers.pc + 1);
    dmg_core::sub::imm(cpu);
}

#[test]
fn sub_simple_subtraction() {
    let mut cpu = Cpu::reset();
    sub_setup(0x1, 0x1, &mut cpu);
    assert_eq!(cpu.registers.a, 0);
    assert!(cpu.registers.f.z);
    assert!(cpu.registers.f.n);
    assert!(!cpu.registers.f.h);
    assert!(!cpu.registers.f.c);
}

#[test]
fn sub_half_carry() {
    let mut cpu = Cpu::reset();
    sub_setup(0x13, 0x04, &mut cpu);
    assert_eq!(cpu.registers.a, 0x0F);
    assert!(!cpu.registers.f.z);
    assert!(cpu.registers.f.n);
    assert!(cpu.registers.f.h);
    assert!(!cpu.registers.f.c);
}

#[test]
fn sub_carry() {
    let mut cpu = Cpu::reset();
    sub_setup(0x00, 0x01, &mut cpu);
    assert_eq!(cpu.registers.a, 0xFF);
    assert!(!cpu.registers.f.z);
    assert!(cpu.registers.f.n);
    assert!(cpu.registers.f.h);
    assert!(cpu.registers.f.c);
}

#[test]
fn sub_trivial() {
    let mut cpu = Cpu::reset();
    for i in 0..=0xFFu8 {
        cpu.registers.a = i;
        dmg_core::sub::a(&mut cpu);
        assert_eq!(cpu.registers.a, 0);
        assert!(cpu.registers.f.z);
        assert!(cpu.registers.f.n);
        assert!(!cpu.registers.f.h);
        assert!(!cpu.registers.f.c);
    }
}

fn sbc_setup(minuend: u8, subtrahend: u8, cpu: &mut Cpu) {
    cpu.registers.a = minuend;
    cpu.registers.f.c = true;
    cpu.current_argument = Some(Argument::Byte(subtrahend));
    dmg_core::sbc::imm(cpu);
}

#[test]
fn sbc_simple_subtraction() {
    let mut cpu = Cpu::reset();
    sbc_setup(0x1, 0x0, &mut cpu);
    assert_eq!(cpu.registers.a, 0);
    assert!(cpu.registers.f.z);
    assert!(cpu.registers.f.n);
    assert!(!cpu.registers.f.h);
    assert!(!cpu.registers.f.c);
}

#[test]
fn sbc_half_carry() {
    let mut cpu = Cpu::reset();
    sbc_setup(0x13, 0x03, &mut cpu);
    assert_eq!(cpu.registers.a, 0x0F);
    assert!(!cpu.registers.f.z);
    assert!(cpu.registers.f.n);
    assert!(cpu.registers.f.h);
    assert!(!cpu.registers.f.c);
}

#[test]
fn sbc_carry() {
    let mut cpu = Cpu::reset();
    sbc_setup(0x00, 0x00, &mut cpu);
    assert_eq!(cpu.registers.a, 0xFF);
    assert!(!cpu.registers.f.z);
    assert!(cpu.registers.f.n);
    assert!(cpu.registers.f.h);
    assert!(cpu.registers.f.c);
}

// SBC A,A with the carry set always computes A - A - 1: the result is
// 0xFF, the half-borrow and the borrow are always taken. The composite
// borrow formulas decide the flags, so H and C are set for every A.
#[test]
fn sbc_trivial() {
    let mut cpu = Cpu::reset();
    for i in 0..=0xFFu8 {
        cpu.registers.a = i;
        cpu.registers.f.c = true;
        dmg_core::sbc::a(&mut cpu);
        assert_eq!(cpu.registers.a, 0xFF);
        assert!(!cpu.registers.f.z);
        assert!(cpu.registers.f.n);
        assert!(cpu.registers.f.h);
        assert!(cpu.registers.f.c);
    }
}
