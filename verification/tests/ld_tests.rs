//! The load instructions: through (HL) with post-move, through (BC), (DE)
//! and (C), absolute stores, and the SP-relative load of HL.

use dmg_core::cpu::Cpu;

#[test]
fn add_a() {
    let value = 0xAB;
    let addr = 0x100;
    let mut cpu = Cpu::reset();
    cpu.registers.a = value;
    cpu.registers.put_hl(addr);
    dmg_core::ld::hl_ind_add::a(&mut cpu);
    assert_eq!(cpu.read_byte(cpu.registers.hl() - 1), value);
    assert_eq!(cpu.registers.hl(), 0x101);
}

#[test]
fn sub_a() {
    let value = 0xAB;
    let addr = 0x100;
    let mut cpu = Cpu::reset();
    cpu.registers.a = value;
    cpu.registers.put_hl(addr);
    dmg_core::ld::hl_ind_sub::a(&mut cpu);
    assert_eq!(cpu.read_byte(cpu.registers.hl() + 1), value);
    assert_eq!(cpu.registers.hl(), 0xFF);
}

#[test]
fn c_ind() {
    let value = 0xAB;
    let addr = 0xBA;
    let mut cpu = Cpu::reset();
    cpu.registers.c = addr;
    cpu.write_byte(value, 0xFF00 + addr as u16);
    dmg_core::ld::a::c_ind(&mut cpu);
    assert_eq!(cpu.registers.a, value);
}

#[test]
fn bc_ind() {
    let value = 0xAB;
    let addr = 0x100;
    let mut cpu = Cpu::reset();
    cpu.registers.put_bc(addr);
    cpu.write_byte(value, cpu.registers.bc());
    dmg_core::ld::a::bc_ind(&mut cpu);
    assert_eq!(cpu.registers.a, value);
}

#[test]
fn de_ind() {
    let value = 0xAB;
    let addr = 0x100;
    let mut cpu = Cpu::reset();
    cpu.registers.put_de(addr);
    cpu.write_byte(value, cpu.registers.de());
    dmg_core::ld::a::de_ind(&mut cpu);
    assert_eq!(cpu.registers.a, value);
}

#[test]
fn hl_ind_add() {
    let value = 0xAB;
    let addr = 0x100;
    let mut cpu = Cpu::reset();
    cpu.registers.put_hl(addr);
    cpu.write_byte(value, cpu.registers.hl());
    dmg_core::ld::a::hl_ind_add(&mut cpu);
    assert_eq!(cpu.registers.a, value);
    assert_eq!(cpu.registers.hl(), addr + 1);
}

#[test]
fn hl_ind_sub() {
    let value = 0xAB;
    let addr = 0x100;
    let mut cpu = Cpu::reset();
    cpu.registers.put_hl(addr);
    cpu.write_byte(value, cpu.registers.hl());
    dmg_core::ld::a::hl_ind_sub(&mut cpu);
    assert_eq!(cpu.registers.a, value);
    assert_eq!(cpu.registers.hl(), addr - 1);
}

#[test]
fn addr() {
    let value = 0xAB;
    let addr = 0x123;
    let mut cpu = Cpu::reset();
    cpu.write_word(addr, cpu.registers.pc + 1);
    cpu.write_byte(value, addr);
    dmg_core::ld::a::addr(&mut cpu);
    assert_eq!(cpu.registers.a, value);
}

#[test]
fn sp_add_reg() {
    let value = 0xFF;
    let addr = 0xBEEF;
    let mut cpu = Cpu::reset();
    cpu.registers.sp = addr;
    cpu.write_byte(value, cpu.registers.pc + 1);
    dmg_core::ld::hl::sp_add_reg(&mut cpu);
    assert_eq!(cpu.registers.hl(), 0xBEEE);
    assert!(!cpu.registers.f.z);
    assert!(!cpu.registers.f.n);
    assert!(!cpu.registers.f.h);
    assert!(cpu.registers.f.c);
}

#[test]
fn ld_a() {
    let value = 0xAB;
    let addr = 0x123;
    let mut cpu = Cpu::reset();
    cpu.registers.a = value;
    cpu.write_word(addr, cpu.registers.pc + 1);
    dmg_core::ld::addr::a(&mut cpu);
    assert_eq!(cpu.read_byte(addr), value);
}

#[test]
fn ld_sp() {
    let value = 0xAB;
    let addr = 0x123;
    let mut cpu = Cpu::reset();
    cpu.registers.sp = value;
    cpu.write_word(addr, cpu.registers.pc + 1);
    dmg_core::ld::addr::sp(&mut cpu);
    assert_eq!(cpu.read_word(addr), value);
}

#[test]
fn ld_hl() {
    let value = 0xAB;
    let mut cpu = Cpu::reset();
    cpu.registers.put_hl(value);
    dmg_core::ld::sp::hl(&mut cpu);
    assert_eq!(cpu.registers.sp, cpu.registers.hl());
}

#[test]
fn ld_c_ind_a() {
    let value = 0xAB;
    let addr = 0xBA;
    let mut cpu = Cpu::reset();
    cpu.registers.c = addr;
    cpu.registers.a = value;
    dmg_core::ld::c_ind::a(&mut cpu);
    assert_eq!(cpu.read_byte(0xFF00 + addr as u16), value);
}

#[test]
fn ld_pair_imm() {
    let value = 0xBEEF;
    let mut cpu = Cpu::reset();
    cpu.write_word(value, cpu.registers.pc + 1);
    dmg_core::ld::bc::imm(&mut cpu);
    assert_eq!(cpu.registers.bc(), value);
}

#[test]
fn ld_hl_store_imm() {
    let value = 0xAB;
    let mut cpu = Cpu::reset();
    cpu.write_byte(value, cpu.registers.pc + 1);
    cpu.registers.put_hl(0x100);
    dmg_core::ld::hl_ind::imm(&mut cpu);
    assert_eq!(cpu.read_byte(cpu.registers.hl()), value);
}

#[test]
fn a_addr() {
    let value = 0xAB;
    let offset = 0xBA;
    let mut cpu = Cpu::reset();
    cpu.write_byte(offset, cpu.registers.pc + 1);
    cpu.write_byte(value, 0xFF00 + offset as u16);
    dmg_core::ldh::a::addr(&mut cpu);
    assert_eq!(cpu.registers.a, value);
}

#[test]
fn addr_a() {
    let value = 0xAB;
    let offset = 0xBA;
    let mut cpu = Cpu::reset();
    cpu.write_byte(offset, cpu.registers.pc + 1);
    cpu.registers.a = value;
    dmg_core::ldh::addr::a(&mut cpu);
    assert_eq!(cpu.read_byte(0xFF00 + offset as u16), value);
}
