//! The subroutine calls CALL: the return address (the byte after the
//! three-byte instruction) is pushed and PC moves to the operand address.

use vstd::prelude::*;
use crate::alu::{spec_wadd16, spec_wsub16, wadd16};
use crate::cpu::Cpu;
use crate::registers::Registers;

verus! {

/// Everything a taken call changes: the address of the following
/// instruction is pushed, PC moves to the operand address, the automatic
/// PC advance is inhibited, and `extra` machine cycles are recorded.
pub open spec fn spec_call_post(pre: Cpu, post: Cpu, extra: u8) -> bool {
    &&& Cpu::spec_stack_mem_post(
        pre.memory,
        post.memory,
        pre.registers.sp,
        spec_wadd16(pre.registers.pc, 3),
    )
    &&& post == (Cpu {
        registers: Registers {
            pc: pre.spec_arg_word(),
            sp: spec_wsub16(pre.registers.sp, 2),
            ..pre.registers
        },
        memory: post.memory,
        inhibit_pc: true,
        machine_cycles: if extra == 0 {
            pre.machine_cycles
        } else {
            extra
        },
        ..pre
    })
}

/// The shared body of every taken call.
fn a16_inner(cpu: &mut Cpu)
    requires
        old(cpu).wf(),
    ensures
        final(cpu).wf(),
        spec_call_post(*old(cpu), *final(cpu), old(cpu).machine_cycles),
{
    let addr = cpu.get_word_argument();
    let ret_addr = wadd16(cpu.registers.pc, 3);
    cpu.push(ret_addr);
    cpu.registers.pc = addr;
    cpu.inhibit_pc = true;
}

/// CALL a16: push the address of the following instruction and jump to
/// the operand address.
/// - - - -
pub fn a16(cpu: &mut Cpu)
    requires
        old(cpu).wf(),
    ensures
        final(cpu).wf(),
        spec_call_post(*old(cpu), *final(cpu), 0),
{
    a16_inner(cpu);
}

/// CALL Z,a16: call the operand address when Z is set; a taken
/// call costs three extra machine cycles.
/// - - - -
pub fn z(cpu: &mut Cpu)
    requires
        old(cpu).wf(),
    ensures
        final(cpu).wf(),
        old(cpu).registers.f.z ==> spec_call_post(*old(cpu), *final(cpu), 3),
        !(old(cpu).registers.f.z) ==> *final(cpu) == *old(cpu),
{
    if cpu.registers.f.z {
        cpu.machine_cycles = 3;
        a16_inner(cpu);
    }
}

/// CALL NZ,a16: call the operand address when Z is clear; a taken
/// call costs three extra machine cycles.
/// - - - -
pub fn nz(cpu: &mut Cpu)
    requires
        old(cpu).wf(),
    ensures
        final(cpu).wf(),
        !old(cpu).registers.f.z ==> spec_call_post(*old(cpu), *final(cpu), 3),
        !(!old(cpu).registers.f.z) ==> *final(cpu) == *old(cpu),
{
    if !cpu.registers.f.z {
        cpu.machine_cycles = 3;
        a16_inner(cpu);
    }
}

/// CALL C,a16: call the operand address when C is set; a taken
/// call costs three extra machine cycles.
/// - - - -
pub fn c(cpu: &mut Cpu)
    requires
        old(cpu).wf(),
    ensures
        final(cpu).wf(),
        old(cpu).registers.f.c ==> spec_call_post(*old(cpu), *final(cpu), 3),
        !(old(cpu).registers.f.c) ==> *final(cpu) == *old(cpu),
{
    if cpu.registers.f.c {
        cpu.machine_cycles = 3;
        a16_inner(cpu);
    }
}

/// CALL NC,a16: call the operand address when C is clear; a taken
/// call costs three extra machine cycles.
/// - - - -
pub fn nc(cpu: &mut Cpu)
    requires
        old(cpu).wf(),
    ensures
        final(cpu).wf(),
        !old(cpu).registers.f.c ==> spec_call_post(*old(cpu), *final(cpu), 3),
        !(!old(cpu).registers.f.c) ==> *final(cpu) == *old(cpu),
{
    if !cpu.registers.f.c {
        cpu.machine_cycles = 3;
        a16_inner(cpu);
    }
}

} // verus!
