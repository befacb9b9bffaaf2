//! The absolute jumps JP: unconditional, conditional on Z or C, and the
//! jump to the address in HL. A conditional jump whose condition is false
//! changes nothing: PC advances by the instruction size alone and no extra
//! cycle is charged.

use vstd::prelude::*;
use crate::cpu::Cpu;
use crate::registers::Registers;

verus! {

/// Everything a taken jump changes: PC moves to the target, the automatic
/// PC advance is inhibited, and `extra` machine cycles are recorded.
pub open spec fn spec_jump_post(pre: Cpu, post: Cpu, target: u16, extra: u8) -> bool {
    post == (Cpu {
        registers: Registers { pc: target, ..pre.registers },
        inhibit_pc: true,
        machine_cycles: if extra == 0 {
            pre.machine_cycles
        } else {
            extra
        },
        ..pre
    })
}

/// JP a16: jump to the operand address.
/// - - - -
pub fn a16(cpu: &mut Cpu)
    requires
        old(cpu).wf(),
    ensures
        spec_jump_post(*old(cpu), *final(cpu), old(cpu).spec_arg_word(), 0),
{
    let addr = cpu.get_word_argument();
    cpu.registers.pc = addr;
    cpu.inhibit_pc = true;
}

/// JP Z,a16: jump to the operand address when Z is set;
/// a taken branch costs one extra machine cycle.
/// - - - -
pub fn z(cpu: &mut Cpu)
    requires
        old(cpu).wf(),
    ensures
        old(cpu).registers.f.z ==> spec_jump_post(*old(cpu), *final(cpu), old(cpu).spec_arg_word(), 1),
        !(old(cpu).registers.f.z) ==> *final(cpu) == *old(cpu),
{
    if cpu.registers.f.z {
        let addr = cpu.get_word_argument();
        cpu.registers.pc = addr;
        cpu.machine_cycles = 1;
        cpu.inhibit_pc = true;
    }
}

/// JP NZ,a16: jump to the operand address when Z is clear;
/// a taken branch costs one extra machine cycle.
/// - - - -
pub fn nz(cpu: &mut Cpu)
    requires
        old(cpu).wf(),
    ensures
        !old(cpu).registers.f.z ==> spec_jump_post(*old(cpu), *final(cpu), old(cpu).spec_arg_word(), 1),
        !(!old(cpu).registers.f.z) ==> *final(cpu) == *old(cpu),
{
    if !cpu.registers.f.z {
        let addr = cpu.get_word_argument();
        cpu.registers.pc = addr;
        cpu.machine_cycles = 1;
        cpu.inhibit_pc = true;
    }
}

/// JP C,a16: jump to the operand address when C is set;
/// a taken branch costs one extra machine cycle.
/// - - - -
pub fn c(cpu: &mut Cpu)
    requires
        old(cpu).wf(),
    ensures
        old(cpu).registers.f.c ==> spec_jump_post(*old(cpu), *final(cpu), old(cpu).spec_arg_word(), 1),
        !(old(cpu).registers.f.c) ==> *final(cpu) == *old(cpu),
{
    if cpu.registers.f.c {
        let addr = cpu.get_word_argument();
        cpu.registers.pc = addr;
        cpu.machine_cycles = 1;
        cpu.inhibit_pc = true;
    }
}

/// JP NC,a16: jump to the operand address when C is clear;
/// a taken branch costs one extra machine cycle.
/// - - - -
pub fn nc(cpu: &mut Cpu)
    requires
        old(cpu).wf(),
    ensures
        !old(cpu).registers.f.c ==> spec_jump_post(*old(cpu), *final(cpu), old(cpu).spec_arg_word(), 1),
        !(!old(cpu).registers.f.c) ==> *final(cpu) == *old(cpu),
{
    if !cpu.registers.f.c {
        let addr = cpu.get_word_argument();
        cpu.registers.pc = addr;
        cpu.machine_cycles = 1;
        cpu.inhibit_pc = true;
    }
}

/// JP (HL): jump to the address held in HL.
/// - - - -
pub fn hl_ind(cpu: &mut Cpu)
    ensures
        spec_jump_post(*old(cpu), *final(cpu), old(cpu).registers.spec_hl(), 0),
{
    let addr = cpu.registers.hl();
    cpu.registers.pc = addr;
    cpu.inhibit_pc = true;
}

} // verus!
