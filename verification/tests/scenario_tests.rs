//! End-to-end scenarios through `reset` and `step`.

use dmg_core::cpu::Cpu;
use dmg_core::errors::CoreError;

/// Reset and one NOP: one machine cycle, PC moves to 0x0101, the flags
/// keep their post-reset values.
#[test]
fn reset_and_nop() {
    let mut cpu = Cpu::reset();
    assert_eq!(cpu.registers.pc, 0x0100);
    cpu.write_byte(0x00, 0x0100);
    let f_before = cpu.registers.f.value();
    let cycles = cpu.step().unwrap();
    assert_eq!(cycles, 1);
    assert_eq!(cpu.registers.pc, 0x0101);
    assert_eq!(cpu.registers.f.value(), f_before);
}

/// A conditional jump taken: JP Z,0xBEEF with Z set costs four machine
/// cycles and lands at 0xBEEF.
#[test]
fn conditional_jump_taken() {
    let mut cpu = Cpu::reset();
    cpu.registers.f.z = true;
    cpu.write_byte(0xCA, 0x0100);
    cpu.write_byte(0xEF, 0x0101);
    cpu.write_byte(0xBE, 0x0102);
    let cycles = cpu.step().unwrap();
    assert_eq!(cycles, 4);
    assert_eq!(cpu.registers.pc, 0xBEEF);
}

/// The same jump not taken: three machine cycles and PC at 0x0103.
#[test]
fn conditional_jump_not_taken() {
    let mut cpu = Cpu::reset();
    cpu.registers.f.z = false;
    cpu.write_byte(0xCA, 0x0100);
    cpu.write_byte(0xEF, 0x0101);
    cpu.write_byte(0xBE, 0x0102);
    let cycles = cpu.step().unwrap();
    assert_eq!(cycles, 3);
    assert_eq!(cpu.registers.pc, 0x0103);
}

/// The post-reset register file and the sampled I/O values of the boot
/// sequence.
#[test]
fn reset_state() {
    let cpu = Cpu::reset();
    assert_eq!(cpu.registers.af(), 0x01B0);
    assert_eq!(cpu.registers.bc(), 0x0013);
    assert_eq!(cpu.registers.de(), 0x00D8);
    assert_eq!(cpu.registers.hl(), 0x014D);
    assert_eq!(cpu.registers.sp, 0xFFFE);
    assert_eq!(cpu.registers.pc, 0x0100);
    assert_eq!(cpu.read_byte(0xFF05), 0x00);
    assert_eq!(cpu.read_byte(0xFF06), 0x00);
    assert_eq!(cpu.read_byte(0xFF07), 0x00);
    assert_eq!(cpu.read_byte(0xFF10), 0x80);
    assert_eq!(cpu.read_byte(0xFF11), 0xBF);
    assert_eq!(cpu.read_byte(0xFF12), 0xF3);
    assert_eq!(cpu.read_byte(0xFF14), 0xBF);
    assert_eq!(cpu.read_byte(0xFF40), 0x91);
    assert_eq!(cpu.read_byte(0xFF47), 0xFC);
    assert_eq!(cpu.read_byte(0xFF48), 0xFF);
    assert_eq!(cpu.read_byte(0xFF49), 0xFF);
    assert_eq!(cpu.read_byte(0xFFFF), 0x00);
}

/// ADC with the carry in: A=0x0F plus 0x01 plus carry gives 0x11 with the
/// half-carry set and the carry clear.
#[test]
fn adc_with_carry_in() {
    let mut cpu = Cpu::reset();
    cpu.registers.a = 0x0F;
    cpu.registers.f.c = true;
    cpu.write_byte(0xCE, 0x0100);  // ADC A,d8
    cpu.write_byte(0x01, 0x0101);
    cpu.step().unwrap();
    assert_eq!(cpu.registers.a, 0x11);
    assert!(cpu.registers.f.h);
    assert!(!cpu.registers.f.c);
    assert!(!cpu.registers.f.z);
    assert!(!cpu.registers.f.n);
}

/// INC on 0xFF wraps to zero with Z and H set.
#[test]
fn inc_wraps_to_zero() {
    let mut cpu = Cpu::reset();
    cpu.registers.b = 0xFF;
    dmg_core::inc::b(&mut cpu);
    assert_eq!(cpu.registers.b, 0);
    assert!(cpu.registers.f.z);
    assert!(cpu.registers.f.h);
    assert!(!cpu.registers.f.n);
}

/// DEC on 0x00 wraps to 0xFF with Z clear and H set.
#[test]
fn dec_wraps_to_ff() {
    let mut cpu = Cpu::reset();
    cpu.registers.b = 0x00;
    dmg_core::dec::b(&mut cpu);
    assert_eq!(cpu.registers.b, 0xFF);
    assert!(!cpu.registers.f.z);
    assert!(cpu.registers.f.h);
    assert!(cpu.registers.f.n);
}

/// ADD HL,HL doubles HL; the half-carry comes from bit 11.
#[test]
fn add_hl_hl_doubles() {
    let mut cpu = Cpu::reset();
    cpu.registers.put_hl(0x0800);
    dmg_core::add::hl::hl(&mut cpu);
    assert_eq!(cpu.registers.hl(), 0x1000);
    assert!(cpu.registers.f.h);
    assert!(!cpu.registers.f.c);
    cpu.registers.put_hl(0x0400);
    dmg_core::add::hl::hl(&mut cpu);
    assert_eq!(cpu.registers.hl(), 0x0800);
    assert!(!cpu.registers.f.h);
}

/// JR with the operand 0xFE moves PC back by exactly two: the sign
/// extension is correct.
#[test]
fn jr_negative_offset() {
    let mut cpu = Cpu::reset();
    cpu.current_argument = Some(dmg_core::opcodes::Argument::Byte(0xFE));
    cpu.registers.pc = 0x0200;
    dmg_core::jr::r8(&mut cpu);
    assert_eq!(cpu.registers.pc, 0x01FE);
}

/// An undefined opcode surfaces as a structured error and stops the core.
#[test]
fn undefined_opcode_error() {
    let mut cpu = Cpu::reset();
    cpu.write_byte(0xD3, 0x0100);
    assert_eq!(cpu.step(), Err(CoreError::UndefinedOpcode(0xD3, 0x0100)));
    assert_eq!(cpu.registers.pc, 0x0100);
}

/// An eight-bit immediate addition through `step`: the result is the sum
/// modulo 256 with the documented flags.
#[test]
fn add_through_step() {
    let mut cpu = Cpu::reset();
    cpu.registers.a = 0xF0;
    cpu.write_byte(0xC6, 0x0100);  // ADD A,d8
    cpu.write_byte(0x20, 0x0101);
    let cycles = cpu.step().unwrap();
    assert_eq!(cycles, 2);
    assert_eq!(cpu.registers.a, 0x10);
    assert!(cpu.registers.f.c);
    assert!(!cpu.registers.f.h);
    assert!(!cpu.registers.f.z);
    assert_eq!(cpu.registers.pc, 0x0102);
}

/// STOP parks the core: each further step idles for one machine cycle.
#[test]
fn stop_gates_the_core() {
    let mut cpu = Cpu::reset();
    cpu.write_byte(0x10, 0x0100);  // STOP
    cpu.step().unwrap();
    assert_eq!(cpu.mode, dmg_core::cpu::RunningMode::Stop);
    let pc = cpu.registers.pc;
    let cycles = cpu.step().unwrap();
    assert_eq!(cycles, 1);
    assert_eq!(cpu.registers.pc, pc);
}

/// CALL pushes the address after the three-byte instruction and RET
/// returns to it, with the stack pointer restored.
#[test]
fn call_and_ret_program() {
    let mut cpu = Cpu::reset();
    cpu.write_byte(0xCD, 0x0100);  // CALL 0x0200
    cpu.write_byte(0x00, 0x0101);
    cpu.write_byte(0x02, 0x0102);
    cpu.write_byte(0xC9, 0x0200);  // RET
    let cycles = cpu.step().unwrap();
    assert_eq!(cycles, 6);
    assert_eq!(cpu.registers.pc, 0x0200);
    assert_eq!(cpu.registers.sp, 0xFFFC);
    assert_eq!(cpu.read_word(cpu.registers.sp), 0x0103);
    let cycles = cpu.step().unwrap();
    assert_eq!(cycles, 4);
    assert_eq!(cpu.registers.pc, 0x0103);
    assert_eq!(cpu.registers.sp, 0xFFFE);
}

/// PUSH BC then POP DE moves the pair over the stack and restores SP.
#[test]
fn push_pop_program() {
    let mut cpu = Cpu::reset();
    cpu.registers.put_bc(0xABCD);
    cpu.write_byte(0xC5, 0x0100);  // PUSH BC
    cpu.write_byte(0xD1, 0x0101);  // POP DE
    let cycles = cpu.step().unwrap();
    assert_eq!(cycles, 4);
    assert_eq!(cpu.registers.sp, 0xFFFC);
    let cycles = cpu.step().unwrap();
    assert_eq!(cycles, 3);
    assert_eq!(cpu.registers.de(), 0xABCD);
    assert_eq!(cpu.registers.sp, 0xFFFE);
}

/// `step_op` executes the chosen opcode with the operand after PC,
/// ignoring the byte at PC itself.
#[test]
fn step_op_forced_opcode() {
    let mut cpu = Cpu::reset();
    cpu.registers.a = 0x01;
    cpu.write_byte(0x00, 0x0100);  // NOP at PC is ignored
    cpu.write_byte(0x41, 0x0101);  // operand byte for the forced ADD A,d8
    let cycles = cpu.step_op(0xC6).unwrap();  // ADD A,d8
    assert_eq!(cycles, 2);
    assert_eq!(cpu.registers.a, 0x42);
    assert_eq!(cpu.registers.pc, 0x0102);
    assert_eq!(
        cpu.step_op(0xCB),
        Err(CoreError::UndefinedOpcode(0xCB, 0x0102))
    );
}
