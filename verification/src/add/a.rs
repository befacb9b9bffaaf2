//! ADD with the accumulator as destination, one function per source.

use vstd::prelude::*;
use crate::alu::spec_alu_add_post;
use crate::cpu::Cpu;

verus! {

/// ADD A,B: add B to A.
/// Z 0 H C
pub fn b(cpu: &mut Cpu)
    ensures
        spec_alu_add_post(*old(cpu), *final(cpu), old(cpu).registers.b, 0),
{
    let v = cpu.registers.b;
    crate::alu::add_val(cpu, v);
}

/// ADD A,C: add C to A.
/// Z 0 H C
pub fn c(cpu: &mut Cpu)
    ensures
        spec_alu_add_post(*old(cpu), *final(cpu), old(cpu).registers.c, 0),
{
    let v = cpu.registers.c;
    crate::alu::add_val(cpu, v);
}

/// ADD A,D: add D to A.
/// Z 0 H C
pub fn d(cpu: &mut Cpu)
    ensures
        spec_alu_add_post(*old(cpu), *final(cpu), old(cpu).registers.d, 0),
{
    let v = cpu.registers.d;
    crate::alu::add_val(cpu, v);
}

/// ADD A,E: add E to A.
/// Z 0 H C
pub fn e(cpu: &mut Cpu)
    ensures
        spec_alu_add_post(*old(cpu), *final(cpu), old(cpu).registers.e, 0),
{
    let v = cpu.registers.e;
    crate::alu::add_val(cpu, v);
}

/// ADD A,H: add H to A.
/// Z 0 H C
pub fn h(cpu: &mut Cpu)
    ensures
        spec_alu_add_post(*old(cpu), *final(cpu), old(cpu).registers.h, 0),
{
    let v = cpu.registers.h;
    crate::alu::add_val(cpu, v);
}

/// ADD A,L: add L to A.
/// Z 0 H C
pub fn l(cpu: &mut Cpu)
    ensures
        spec_alu_add_post(*old(cpu), *final(cpu), old(cpu).registers.l, 0),
{
    let v = cpu.registers.l;
    crate::alu::add_val(cpu, v);
}

/// ADD A,A: add A to A.
/// Z 0 H C
pub fn a(cpu: &mut Cpu)
    ensures
        spec_alu_add_post(*old(cpu), *final(cpu), old(cpu).registers.a, 0),
{
    let v = cpu.registers.a;
    crate::alu::add_val(cpu, v);
}

/// ADD A,d8: add the immediate operand to A.
/// Z 0 H C
pub fn imm(cpu: &mut Cpu)
    requires
        old(cpu).wf(),
    ensures
        spec_alu_add_post(*old(cpu), *final(cpu), old(cpu).spec_arg_byte(), 0),
{
    let v = cpu.get_byte_argument();
    crate::alu::add_val(cpu, v);
}

/// ADD A,(HL): add the byte at HL to A.
/// Z 0 H C
pub fn hl_ind(cpu: &mut Cpu)
    requires
        old(cpu).wf(),
    ensures
        spec_alu_add_post(
            *old(cpu),
            *final(cpu),
            old(cpu).memory.spec_read(old(cpu).registers.spec_hl()),
            0,
        ),
{
    let addr = cpu.registers.hl();
    let v = cpu.read_byte(addr);
    crate::alu::add_val(cpu, v);
}

} // verus!
