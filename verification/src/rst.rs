//! The restart instructions RST: push PC and jump to a fixed zero-page
//! address.

use vstd::prelude::*;
use crate::alu::spec_wsub16;
use crate::cpu::Cpu;
use crate::registers::Registers;

verus! {

/// Everything a restart changes: PC is pushed, then moves to the fixed
/// offset, and the automatic PC advance is inhibited.
pub open spec fn spec_rst_post(pre: Cpu, post: Cpu, offset: u16) -> bool {
    &&& Cpu::spec_stack_mem_post(pre.memory, post.memory, pre.registers.sp, pre.registers.pc)
    &&& post == (Cpu {
        registers: Registers {
            pc: offset,
            sp: spec_wsub16(pre.registers.sp, 2),
            ..pre.registers
        },
        memory: post.memory,
        inhibit_pc: true,
        ..pre
    })
}

/// The shared body of every restart.
fn rst(cpu: &mut Cpu, offset: u16)
    requires
        old(cpu).wf(),
    ensures
        final(cpu).wf(),
        spec_rst_post(*old(cpu), *final(cpu), offset),
{
    let pc = cpu.registers.pc;
    cpu.push(pc);
    cpu.registers.pc = offset;
    cpu.inhibit_pc = true;
}

/// RST 0: push PC and jump to 0x00 in the zero page.
/// - - - -
pub fn rst_0(cpu: &mut Cpu)
    requires
        old(cpu).wf(),
    ensures
        final(cpu).wf(),
        spec_rst_post(*old(cpu), *final(cpu), 0x00),
{
    rst(cpu, 0x00);
}

/// RST 1: push PC and jump to 0x08 in the zero page.
/// - - - -
pub fn rst_1(cpu: &mut Cpu)
    requires
        old(cpu).wf(),
    ensures
        final(cpu).wf(),
        spec_rst_post(*old(cpu), *final(cpu), 0x08),
{
    rst(cpu, 0x08);
}

/// RST 2: push PC and jump to 0x10 in the zero page.
/// - - - -
pub fn rst_2(cpu: &mut Cpu)
    requires
        old(cpu).wf(),
    ensures
        final(cpu).wf(),
        spec_rst_post(*old(cpu), *final(cpu), 0x10),
{
    rst(cpu, 0x10);
}

/// RST 3: push PC and jump to 0x18 in the zero page.
/// - - - -
pub fn rst_3(cpu: &mut Cpu)
    requires
        old(cpu).wf(),
    ensures
        final(cpu).wf(),
        spec_rst_post(*old(cpu), *final(cpu), 0x18),
{
    rst(cpu, 0x18);
}

/// RST 4: push PC and jump to 0x20 in the zero page.
/// - - - -
pub fn rst_4(cpu: &mut Cpu)
    requires
        old(cpu).wf(),
    ensures
        final(cpu).wf(),
        spec_rst_post(*old(cpu), *final(cpu), 0x20),
{
    rst(cpu, 0x20);
}

/// RST 5: push PC and jump to 0x28 in the zero page.
/// - - - -
pub fn rst_5(cpu: &mut Cpu)
    requires
        old(cpu).wf(),
    ensures
        final(cpu).wf(),
        spec_rst_post(*old(cpu), *final(cpu), 0x28),
{
    rst(cpu, 0x28);
}

/// RST 6: push PC and jump to 0x30 in the zero page.
/// - - - -
pub fn rst_6(cpu: &mut Cpu)
    requires
        old(cpu).wf(),
    ensures
        final(cpu).wf(),
        spec_rst_post(*old(cpu), *final(cpu), 0x30),
{
    rst(cpu, 0x30);
}

/// RST 7: push PC and jump to 0x38 in the zero page.
/// - - - -
pub fn rst_7(cpu: &mut Cpu)
    requires
        old(cpu).wf(),
    ensures
        final(cpu).wf(),
        spec_rst_post(*old(cpu), *final(cpu), 0x38),
{
    rst(cpu, 0x38);
}

} // verus!
