//! EI, DI, RETI, the HALT modes and the halt bug. A serving step only
//! pushes PC and jumps to the vector: the first handler instruction runs
//! in the following step.

use dmg_core::cpu::{Cpu, RunningMode};
use dmg_core::interrupts::Interrupt;

#[test]
fn ei() {
    let mut cpu = Cpu::reset();
    cpu.registers.a = 0;
    cpu.write_byte(0x3C, cpu.registers.pc);  // INC A
    cpu.write_byte(0x3C, cpu.registers.pc + 1);
    cpu.request_interrupt(Interrupt::Vblank);
    cpu.enable_interrupt(Interrupt::Vblank);
    cpu.step().unwrap();
    assert_eq!(cpu.registers.a, 1);
    assert_ne!(cpu.registers.pc, 0x41);
    dmg_core::interrupt::ei(&mut cpu);
    cpu.step().unwrap();

    // A has not been incremented: the interrupt was serviced instead, and
    // the service step runs no opcode.
    assert_ne!(cpu.registers.a, 2);
    assert_eq!(cpu.registers.pc, 0x40);
    cpu.step().unwrap();  // NOP in ISR
    assert_eq!(cpu.registers.pc, 0x41);
}

#[test]
fn di() {
    let mut cpu = Cpu::reset();
    cpu.registers.a = 0;
    cpu.write_byte(0x3C, cpu.registers.pc);  // INC A
    cpu.request_interrupt(Interrupt::Vblank);
    cpu.enable_interrupt(Interrupt::Vblank);
    dmg_core::interrupt::ei(&mut cpu);
    cpu.step().unwrap();
    assert_ne!(cpu.registers.a, 1);
    assert_eq!(cpu.registers.pc, 0x40);
    cpu.registers.pc = 0x100;
    cpu.write_byte(0x3C, cpu.registers.pc);  // INC A
    dmg_core::interrupt::di(&mut cpu);
    cpu.step().unwrap();
    assert_eq!(cpu.registers.a, 1);
    assert_ne!(cpu.registers.pc, 0x41);
}

#[test]
fn reti() {
    let mut cpu = Cpu::reset();
    cpu.registers.a = 0;
    cpu.write_byte(0x3C, cpu.registers.pc);  // INC A
    cpu.write_byte(0x3C, cpu.registers.pc + 1);

    cpu.write_byte(0xD9, 0x41);  // RETI
    cpu.request_interrupt(Interrupt::Vblank);
    cpu.enable_interrupt(Interrupt::Vblank);
    dmg_core::interrupt::ei(&mut cpu);

    cpu.step().unwrap();  // service: push 0x100, jump to the vector
    assert_ne!(cpu.registers.a, 1);
    assert_eq!(cpu.registers.pc, 0x40);
    cpu.step().unwrap();  // NOP in ISR
    assert_eq!(cpu.registers.pc, 0x41);
    cpu.step().unwrap();  // RETI
    assert_eq!(cpu.registers.pc, 0x100);
}

#[test]
fn halt_normal() {
    let mut cpu = Cpu::reset();
    cpu.registers.a = 0;
    cpu.interrupt_master_enable = true;
    cpu.write_byte(0x76, cpu.registers.pc);  // HALT
    cpu.write_byte(0x3C, cpu.registers.pc + 1);  // INC A
    cpu.write_byte(0xD9, 0x41);  // RETI
    cpu.enable_interrupt(Interrupt::Vblank);

    // Go into HALT mode
    cpu.step().unwrap();
    assert_eq!(cpu.mode, RunningMode::HaltImeSet);

    // Make sure nothing happens
    for _ in 0..100 {
        cpu.step().unwrap();
        assert_eq!(cpu.registers.pc, 0x101);
        assert_eq!(cpu.registers.a, 0x0);
    }

    cpu.request_interrupt(Interrupt::Vblank);
    cpu.step().unwrap();  // service: push 0x101, jump to the vector
    assert_eq!(cpu.registers.pc, 0x40);
    assert_eq!(cpu.mode, RunningMode::Running);

    cpu.step().unwrap();  // NOP in ISR
    assert_eq!(cpu.registers.pc, 0x41);

    cpu.step().unwrap();  // RETI
    assert_eq!(cpu.registers.pc, 0x101);

    cpu.step().unwrap();  // INC A
    assert_eq!(cpu.registers.a, 0x1);
}

#[test]
fn halt_ime_clear() {
    let mut cpu = Cpu::reset();
    cpu.registers.a = 0;
    cpu.interrupt_master_enable = false;
    cpu.enable_interrupt(Interrupt::Vblank);
    cpu.write_byte(0x76, cpu.registers.pc);  // HALT
    cpu.write_byte(0x3C, cpu.registers.pc + 1);  // INC A

    // Go into HALT mode
    cpu.step().unwrap();
    assert_eq!(cpu.mode, RunningMode::HaltImeClear);

    // Make sure nothing happens
    for _ in 0..100 {
        cpu.step().unwrap();
        assert_eq!(cpu.registers.pc, 0x101);
        assert_eq!(cpu.registers.a, 0x0);
        assert_eq!(cpu.mode, RunningMode::HaltImeClear);
    }

    cpu.request_interrupt(Interrupt::Vblank);
    assert!(cpu.memory.interrupts.interrupts_requested());
    cpu.step().unwrap();  // Would be NOP in ISR, is now just INC A
    assert_eq!(cpu.mode, RunningMode::Running);
    assert_eq!(cpu.registers.pc, 0x102);
    assert_eq!(cpu.registers.a, 0x1);
}

#[test]
fn halt_bug() {
    let mut cpu = Cpu::reset();
    cpu.registers.a = 0;

    // Halt bug combination
    cpu.interrupt_master_enable = false;
    cpu.request_interrupt(Interrupt::Vblank);
    cpu.enable_interrupt(Interrupt::Vblank);

    cpu.write_byte(0x76, cpu.registers.pc);  // HALT
    cpu.write_byte(0x3C, cpu.registers.pc + 1);  // INC A

    // Execute HALT, go into bug state
    cpu.step().unwrap();
    assert_eq!(cpu.mode, RunningMode::HaltBug);
    assert_eq!(cpu.registers.pc, 0x101);

    cpu.step().unwrap();  // INC A
    assert_eq!(cpu.mode, RunningMode::Running);
    assert_eq!(cpu.registers.pc, 0x101);  // Did not increment because of bug!
    cpu.step().unwrap();  // Should be NOP, but is INC A again because of the halt bug!
    assert_eq!(cpu.mode, RunningMode::Running);
    assert_eq!(cpu.registers.pc, 0x102);
    assert_eq!(cpu.registers.a, 0x2);
}

/// The lowest-numbered pending source wins, and servicing clears only its
/// request bit.
#[test]
fn interrupt_priority() {
    let mut cpu = Cpu::reset();
    cpu.enable_interrupt(Interrupt::Vblank);
    cpu.enable_interrupt(Interrupt::Timer);
    cpu.request_interrupt(Interrupt::Timer);
    cpu.request_interrupt(Interrupt::Vblank);
    cpu.interrupt_master_enable = true;
    let cycles = cpu.step().unwrap();
    assert_eq!(cycles, 5);
    assert_eq!(cpu.registers.pc, 0x40);
    assert!(!cpu.interrupt_master_enable);
    assert!(cpu.memory.interrupts.request.timer);
    assert!(!cpu.memory.interrupts.request.vblank);
}

/// EI through its opcode takes effect only after the following
/// instruction: with an interrupt already pending, the instruction after
/// EI still runs before the dispatch.
#[test]
fn ei_opcode_delay() {
    let mut cpu = Cpu::reset();
    cpu.registers.a = 0;
    cpu.request_interrupt(Interrupt::Vblank);
    cpu.enable_interrupt(Interrupt::Vblank);
    cpu.write_byte(0xFB, 0x100);  // EI
    cpu.write_byte(0x3C, 0x101);  // INC A
    cpu.step().unwrap();  // EI
    assert_eq!(cpu.registers.pc, 0x101);
    cpu.step().unwrap();  // INC A runs before any dispatch
    assert_eq!(cpu.registers.a, 1);
    assert_eq!(cpu.registers.pc, 0x102);
    let cycles = cpu.step().unwrap();  // now the interrupt is serviced
    assert_eq!(cycles, 5);
    assert_eq!(cpu.registers.pc, 0x40);
}
