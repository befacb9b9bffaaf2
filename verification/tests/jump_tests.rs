//! The jumps, calls and returns: absolute, relative and conditional.

use dmg_core::cpu::Cpu;
use dmg_core::opcodes::Argument;

#[test]
fn jp_test_a16() {
    let mut cpu = Cpu::reset();
    cpu.current_argument = Some(Argument::Word(0xbeef));
    dmg_core::jp::a16(&mut cpu);
    assert_eq!(cpu.registers.pc, 0xbeef);
}

#[test]
fn test_hl_ind() {
    let mut cpu = Cpu::reset();
    cpu.registers.put_hl(0xbeef);
    dmg_core::jp::hl_ind(&mut cpu);
    assert_eq!(cpu.registers.pc, 0xbeef);
}

#[test]
fn jp_test_z_taken() {
    let mut cpu = Cpu::reset();
    cpu.registers.f.z = true;
    cpu.write_word(0xbeef, cpu.registers.pc + 1);
    cpu.write_byte(0xCA, cpu.registers.pc);
    cpu.step().unwrap();
    assert_eq!(cpu.registers.pc, 0xbeef);
    assert_eq!(cpu.machine_cycles, 4);
}

#[test]
fn jp_test_nz_taken() {
    let mut cpu = Cpu::reset();
    cpu.registers.f.z = false;
    cpu.write_word(0xbeef, cpu.registers.pc + 1);
    cpu.write_byte(0xC2, cpu.registers.pc);
    cpu.step().unwrap();
    assert_eq!(cpu.registers.pc, 0xbeef);
    assert_eq!(cpu.machine_cycles, 4);
}

#[test]
fn jp_test_c_taken() {
    let mut cpu = Cpu::reset();
    cpu.registers.f.c = true;
    cpu.write_word(0xbeef, cpu.registers.pc + 1);
    cpu.write_byte(0xDA, cpu.registers.pc);
    cpu.step().unwrap();
    assert_eq!(cpu.registers.pc, 0xbeef);
    assert_eq!(cpu.machine_cycles, 4);
}

#[test]
fn jp_test_nc_taken() {
    let mut cpu = Cpu::reset();
    cpu.registers.f.c = false;
    cpu.write_word(0xbeef, cpu.registers.pc + 1);
    cpu.write_byte(0xD2, cpu.registers.pc);
    cpu.step().unwrap();
    assert_eq!(cpu.registers.pc, 0xbeef);
    assert_eq!(cpu.machine_cycles, 4);
}

#[test]
fn jp_test_z_not_taken() {
    let mut cpu = Cpu::reset();
    cpu.registers.f.z = false;
    cpu.write_word(0xbeef, cpu.registers.pc + 1);
    cpu.write_byte(0xCA, cpu.registers.pc);
    cpu.step().unwrap();
    assert_ne!(cpu.registers.pc, 0xbeef);
    assert_eq!(cpu.machine_cycles, 3);
}

#[test]
fn jp_test_nz_not_taken() {
    let mut cpu = Cpu::reset();
    cpu.registers.f.z = true;
    cpu.write_word(0xbeef, cpu.registers.pc + 1);
    cpu.write_byte(0xC2, cpu.registers.pc);
    cpu.step().unwrap();
    assert_ne!(cpu.registers.pc, 0xbeef);
    assert_eq!(cpu.machine_cycles, 3);
}

#[test]
fn jp_test_c_not_taken() {
    let mut cpu = Cpu::reset();
    cpu.registers.f.c = false;
    cpu.write_word(0xbeef, cpu.registers.pc + 1);
    cpu.write_byte(0xDA, cpu.registers.pc);
    cpu.step().unwrap();
    assert_ne!(cpu.registers.pc, 0xbeef);
    assert_eq!(cpu.machine_cycles, 3);
}

#[test]
fn jp_test_nc_not_taken() {
    let mut cpu = Cpu::reset();
    cpu.registers.f.c = true;
    cpu.write_word(0xbeef, cpu.registers.pc + 1);
    cpu.write_byte(0xD2, cpu.registers.pc);
    cpu.step().unwrap();
    assert_ne!(cpu.registers.pc, 0xbeef);
    assert_eq!(cpu.machine_cycles, 3);
}

fn jr_setup(cpu: &mut Cpu) {
    let byte: u8 = 0xFE;  // signed -2
    cpu.current_argument = Some(Argument::Byte(byte));
    cpu.registers.pc = 3;
}

#[test]
fn test_r8() {
    let mut cpu = Cpu::reset();
    jr_setup(&mut cpu);
    dmg_core::jr::r8(&mut cpu);
    assert_eq!(cpu.registers.pc, 0x1);
}

#[test]
fn jr_test_z_taken() {
    let mut cpu = Cpu::reset();
    cpu.registers.f.z = true;
    jr_setup(&mut cpu);
    dmg_core::jr::z(&mut cpu);
    assert_eq!(cpu.registers.pc, 0x1);
    assert_eq!(cpu.machine_cycles, 1);
}

#[test]
fn jr_test_nz_taken() {
    let mut cpu = Cpu::reset();
    cpu.registers.f.z = false;
    jr_setup(&mut cpu);
    dmg_core::jr::nz(&mut cpu);
    assert_eq!(cpu.registers.pc, 0x1);
    assert_eq!(cpu.machine_cycles, 1);
}

#[test]
fn jr_test_c_taken() {
    let mut cpu = Cpu::reset();
    cpu.registers.f.c = true;
    jr_setup(&mut cpu);
    dmg_core::jr::c(&mut cpu);
    assert_eq!(cpu.registers.pc, 0x1);
    assert_eq!(cpu.machine_cycles, 1);
}

#[test]
fn jr_test_nc_taken() {
    let mut cpu = Cpu::reset();
    cpu.registers.f.c = false;
    jr_setup(&mut cpu);
    dmg_core::jr::nc(&mut cpu);
    assert_eq!(cpu.registers.pc, 0x1);
    assert_eq!(cpu.machine_cycles, 1);
}

#[test]
fn jr_test_z_not_taken() {
    let mut cpu = Cpu::reset();
    cpu.registers.f.z = false;
    jr_setup(&mut cpu);
    dmg_core::jr::z(&mut cpu);
    assert_ne!(cpu.registers.pc, 0x1);
    assert_eq!(cpu.machine_cycles, 0);
}

#[test]
fn jr_test_nz_not_taken() {
    let mut cpu = Cpu::reset();
    cpu.registers.f.z = true;
    jr_setup(&mut cpu);
    dmg_core::jr::nz(&mut cpu);
    assert_ne!(cpu.registers.pc, 0x1);
    assert_eq!(cpu.machine_cycles, 0);
}

#[test]
fn jr_test_c_not_taken() {
    let mut cpu = Cpu::reset();
    cpu.registers.f.c = false;
    jr_setup(&mut cpu);
    dmg_core::jr::c(&mut cpu);
    assert_ne!(cpu.registers.pc, 0x1);
    assert_eq!(cpu.machine_cycles, 0);
}

#[test]
fn jr_test_nc_not_taken() {
    let mut cpu = Cpu::reset();
    cpu.registers.f.c = true;
    jr_setup(&mut cpu);
    dmg_core::jr::nc(&mut cpu);
    assert_ne!(cpu.registers.pc, 0x1);
    assert_eq!(cpu.machine_cycles, 0);
}

fn call_setup(cpu: &mut Cpu) {
    let addr: u16 = 0xDEAD;
    cpu.current_argument = Some(Argument::Word(addr));
    cpu.registers.pc = 0xBEEF;
}

#[test]
fn call_test_a16() {
    let mut cpu = Cpu::reset();
    call_setup(&mut cpu);
    dmg_core::call::a16(&mut cpu);
    assert_eq!(cpu.registers.pc, 0xDEAD);
}

#[test]
fn call_test_z_taken() {
    let mut cpu = Cpu::reset();
    cpu.registers.f.z = true;
    call_setup(&mut cpu);
    dmg_core::call::z(&mut cpu);
    assert_eq!(cpu.registers.pc, 0xDEAD);
    assert_eq!(cpu.machine_cycles, 3);
}

#[test]
fn call_test_nz_taken() {
    let mut cpu = Cpu::reset();
    cpu.registers.f.z = false;
    call_setup(&mut cpu);
    dmg_core::call::nz(&mut cpu);
    assert_eq!(cpu.registers.pc, 0xDEAD);
    assert_eq!(cpu.machine_cycles, 3);
}

#[test]
fn call_test_c_taken() {
    let mut cpu = Cpu::reset();
    cpu.registers.f.c = true;
    call_setup(&mut cpu);
    dmg_core::call::c(&mut cpu);
    assert_eq!(cpu.registers.pc, 0xDEAD);
    assert_eq!(cpu.machine_cycles, 3);
}

#[test]
fn call_test_nc_taken() {
    let mut cpu = Cpu::reset();
    cpu.registers.f.c = false;
    call_setup(&mut cpu);
    dmg_core::call::nc(&mut cpu);
    assert_eq!(cpu.registers.pc, 0xDEAD);
    assert_eq!(cpu.machine_cycles, 3);
}

#[test]
fn call_test_z_not_taken() {
    let mut cpu = Cpu::reset();
    cpu.registers.f.z = false;
    call_setup(&mut cpu);
    dmg_core::call::z(&mut cpu);
    assert_ne!(cpu.registers.pc, 0xDEAD);
    assert_eq!(cpu.machine_cycles, 0);
}

#[test]
fn call_test_nz_not_taken() {
    let mut cpu = Cpu::reset();
    cpu.registers.f.z = true;
    call_setup(&mut cpu);
    dmg_core::call::nz(&mut cpu);
    assert_ne!(cpu.registers.pc, 0xDEAD);
    assert_eq!(cpu.machine_cycles, 0);
}

#[test]
fn call_test_c_not_taken() {
    let mut cpu = Cpu::reset();
    cpu.registers.f.c = false;
    call_setup(&mut cpu);
    dmg_core::call::c(&mut cpu);
    assert_ne!(cpu.registers.pc, 0xDEAD);
    assert_eq!(cpu.machine_cycles, 0);
}

#[test]
fn call_test_nc_not_taken() {
    let mut cpu = Cpu::reset();
    cpu.registers.f.c = true;
    call_setup(&mut cpu);
    dmg_core::call::nc(&mut cpu);
    assert_ne!(cpu.registers.pc, 0xDEAD);
    assert_eq!(cpu.machine_cycles, 0);
}

fn ret_setup(cpu: &mut Cpu) {
    cpu.push(0xBEEF);
}

#[test]
fn ret_test_a16() {
    let mut cpu = Cpu::reset();
    ret_setup(&mut cpu);
    dmg_core::ret::ret(&mut cpu);
    assert_eq!(cpu.registers.pc, 0xBEEF);
}

#[test]
fn ret_test_z_taken() {
    let mut cpu = Cpu::reset();
    cpu.registers.f.z = true;
    ret_setup(&mut cpu);
    dmg_core::ret::z(&mut cpu);
    assert_eq!(cpu.registers.pc, 0xBEEF);
    assert_eq!(cpu.machine_cycles, 3);
}

#[test]
fn ret_test_nz_taken() {
    let mut cpu = Cpu::reset();
    cpu.registers.f.z = false;
    ret_setup(&mut cpu);
    dmg_core::ret::nz(&mut cpu);
    assert_eq!(cpu.registers.pc, 0xBEEF);
    assert_eq!(cpu.machine_cycles, 3);
}

#[test]
fn ret_test_c_taken() {
    let mut cpu = Cpu::reset();
    cpu.registers.f.c = true;
    ret_setup(&mut cpu);
    dmg_core::ret::c(&mut cpu);
    assert_eq!(cpu.registers.pc, 0xBEEF);
    assert_eq!(cpu.machine_cycles, 3);
}

#[test]
fn ret_test_nc_taken() {
    let mut cpu = Cpu::reset();
    cpu.registers.f.c = false;
    ret_setup(&mut cpu);
    dmg_core::ret::nc(&mut cpu);
    assert_eq!(cpu.registers.pc, 0xBEEF);
    assert_eq!(cpu.machine_cycles, 3);
}

#[test]
fn ret_test_z_not_taken() {
    let mut cpu = Cpu::reset();
    cpu.registers.f.z = false;
    ret_setup(&mut cpu);
    dmg_core::ret::z(&mut cpu);
    assert_ne!(cpu.registers.pc, 0xBEEF);
    assert_eq!(cpu.machine_cycles, 0);
}

#[test]
fn ret_test_nz_not_taken() {
    let mut cpu = Cpu::reset();
    cpu.registers.f.z = true;
    ret_setup(&mut cpu);
    dmg_core::ret::nz(&mut cpu);
    assert_ne!(cpu.registers.pc, 0xBEEF);
    assert_eq!(cpu.machine_cycles, 0);
}

#[test]
fn ret_test_c_not_taken() {
    let mut cpu = Cpu::reset();
    cpu.registers.f.c = false;
    ret_setup(&mut cpu);
    dmg_core::ret::c(&mut cpu);
    assert_ne!(cpu.registers.pc, 0xBEEF);
    assert_eq!(cpu.machine_cycles, 0);
}

#[test]
fn ret_test_nc_not_taken() {
    let mut cpu = Cpu::reset();
    cpu.registers.f.c = true;
    ret_setup(&mut cpu);
    dmg_core::ret::nc(&mut cpu);
    assert_ne!(cpu.registers.pc, 0xBEEF);
    assert_eq!(cpu.machine_cycles, 0);
}

/// RST pushes the program counter and jumps into the zero page.
#[test]
fn rst_zero_page() {
    let mut cpu = Cpu::reset();
    dmg_core::rst::rst_3(&mut cpu);
    assert_eq!(cpu.registers.pc, 0x18);
    assert_eq!(cpu.read_word(cpu.registers.sp), 0x100);
}
