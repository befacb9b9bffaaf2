//! The subroutine returns RET: PC is popped off the stack.

use vstd::prelude::*;
use crate::alu::spec_wadd16;
use crate::cpu::Cpu;
use crate::registers::Registers;

verus! {

/// Everything a taken return changes: PC takes the word at SP, SP rises by
/// two, the automatic PC advance is inhibited, and `extra` machine cycles
/// are recorded.
pub open spec fn spec_ret_post(pre: Cpu, post: Cpu, extra: u8) -> bool {
    post == (Cpu {
        registers: Registers {
            pc: pre.spec_pop_value(),
            sp: spec_wadd16(pre.registers.sp, 2),
            ..pre.registers
        },
        inhibit_pc: true,
        machine_cycles: if extra == 0 {
            pre.machine_cycles
        } else {
            extra
        },
        ..pre
    })
}

/// RET: pop the return address into PC.
/// - - - -
pub fn ret(cpu: &mut Cpu)
    requires
        old(cpu).wf(),
    ensures
        spec_ret_post(*old(cpu), *final(cpu), old(cpu).machine_cycles),
{
    let addr = cpu.pop();
    cpu.registers.pc = addr;
    cpu.inhibit_pc = true;
}

/// RET Z: return when Z is set; a taken return costs three extra
/// machine cycles.
/// - - - -
pub fn z(cpu: &mut Cpu)
    requires
        old(cpu).wf(),
    ensures
        old(cpu).registers.f.z ==> spec_ret_post(*old(cpu), *final(cpu), 3),
        !(old(cpu).registers.f.z) ==> *final(cpu) == *old(cpu),
{
    if cpu.registers.f.z {
        cpu.machine_cycles = 3;
        ret(cpu);
    }
}

/// RET NZ: return when Z is clear; a taken return costs three extra
/// machine cycles.
/// - - - -
pub fn nz(cpu: &mut Cpu)
    requires
        old(cpu).wf(),
    ensures
        !old(cpu).registers.f.z ==> spec_ret_post(*old(cpu), *final(cpu), 3),
        !(!old(cpu).registers.f.z) ==> *final(cpu) == *old(cpu),
{
    if !cpu.registers.f.z {
        cpu.machine_cycles = 3;
        ret(cpu);
    }
}

/// RET C: return when C is set; a taken return costs three extra
/// machine cycles.
/// - - - -
pub fn c(cpu: &mut Cpu)
    requires
        old(cpu).wf(),
    ensures
        old(cpu).registers.f.c ==> spec_ret_post(*old(cpu), *final(cpu), 3),
        !(old(cpu).registers.f.c) ==> *final(cpu) == *old(cpu),
{
    if cpu.registers.f.c {
        cpu.machine_cycles = 3;
        ret(cpu);
    }
}

/// RET NC: return when C is clear; a taken return costs three extra
/// machine cycles.
/// - - - -
pub fn nc(cpu: &mut Cpu)
    requires
        old(cpu).wf(),
    ensures
        !old(cpu).registers.f.c ==> spec_ret_post(*old(cpu), *final(cpu), 3),
        !(!old(cpu).registers.f.c) ==> *final(cpu) == *old(cpu),
{
    if !cpu.registers.f.c {
        cpu.machine_cycles = 3;
        ret(cpu);
    }
}

} // verus!
