//! The control instructions that drive the running mode and the interrupt
//! master enable: STOP, HALT, EI, DI and RETI.

use vstd::prelude::*;
use crate::alu::spec_wadd16;
use crate::cpu::{Cpu, RunningMode};
use crate::registers::Registers;

verus! {

/// STOP: enter Stop mode; only a joypad request leaves it.
pub fn stop(cpu: &mut Cpu)
    ensures
        *final(cpu) == (Cpu { mode: RunningMode::Stop, ..*old(cpu) }),
{
    cpu.mode = RunningMode::Stop;
}

/// The mode HALT enters: HaltImeSet with IME set; otherwise HaltImeClear
/// when nothing is pending, and the one-shot HaltBug when an interrupt is
/// already pending.
pub open spec fn spec_halt_mode(pre: Cpu) -> RunningMode {
    if pre.interrupt_master_enable {
        RunningMode::HaltImeSet
    } else if pre.memory.interrupts.spec_highest_pending() is None {
        RunningMode::HaltImeClear
    } else {
        RunningMode::HaltBug
    }
}

/// HALT: suspend until an interrupt is pending. With IME clear and an
/// interrupt already pending the halt bug is armed instead: the byte after
/// HALT will be executed twice.
pub fn halt(cpu: &mut Cpu)
    ensures
        *final(cpu) == (Cpu { mode: spec_halt_mode(*old(cpu)), ..*old(cpu) }),
{
    if cpu.interrupt_master_enable {
        cpu.mode = RunningMode::HaltImeSet;
    } else if !cpu.memory.interrupts.interrupts_pending() {
        cpu.mode = RunningMode::HaltImeClear;
    } else {
        cpu.mode = RunningMode::HaltBug;
    }
}

/// EI: set the interrupt master enable. Dispatch is delayed by one
/// instruction: `step` skips its interrupt check once after executing EI.
pub fn ei(cpu: &mut Cpu)
    ensures
        *final(cpu) == (Cpu { interrupt_master_enable: true, ..*old(cpu) }),
{
    cpu.interrupt_master_enable = true;
}

/// DI: clear the interrupt master enable.
pub fn di(cpu: &mut Cpu)
    ensures
        *final(cpu) == (Cpu { interrupt_master_enable: false, ..*old(cpu) }),
{
    cpu.interrupt_master_enable = false;
}

/// RETI: return from an interrupt handler and set the interrupt master
/// enable again, with no delay.
pub fn reti(cpu: &mut Cpu)
    requires
        old(cpu).wf(),
    ensures
        *final(cpu) == (Cpu {
            registers: Registers {
                pc: old(cpu).spec_pop_value(),
                sp: spec_wadd16(old(cpu).registers.sp, 2),
                ..old(cpu).registers
            },
            interrupt_master_enable: true,
            inhibit_pc: true,
            ..*old(cpu)
        }),
{
    cpu.interrupt_master_enable = true;
    let addr = cpu.pop();
    cpu.registers.pc = addr;
    cpu.inhibit_pc = true;
}

} // verus!
