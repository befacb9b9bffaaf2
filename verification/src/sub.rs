//! The SUB instructions: eight-bit subtractions from A.

use vstd::prelude::*;
use crate::alu::spec_alu_sub_post;
use crate::cpu::Cpu;

verus! {

/// SUB A,B: subtract B from A.
/// Z 1 H C
pub fn b(cpu: &mut Cpu)
    ensures
        spec_alu_sub_post(*old(cpu), *final(cpu), old(cpu).registers.b, 0),
{
    let v = cpu.registers.b;
    crate::alu::sub_val(cpu, v);
}

/// SUB A,C: subtract C from A.
/// Z 1 H C
pub fn c(cpu: &mut Cpu)
    ensures
        spec_alu_sub_post(*old(cpu), *final(cpu), old(cpu).registers.c, 0),
{
    let v = cpu.registers.c;
    crate::alu::sub_val(cpu, v);
}

/// SUB A,D: subtract D from A.
/// Z 1 H C
pub fn d(cpu: &mut Cpu)
    ensures
        spec_alu_sub_post(*old(cpu), *final(cpu), old(cpu).registers.d, 0),
{
    let v = cpu.registers.d;
    crate::alu::sub_val(cpu, v);
}

/// SUB A,E: subtract E from A.
/// Z 1 H C
pub fn e(cpu: &mut Cpu)
    ensures
        spec_alu_sub_post(*old(cpu), *final(cpu), old(cpu).registers.e, 0),
{
    let v = cpu.registers.e;
    crate::alu::sub_val(cpu, v);
}

/// SUB A,H: subtract H from A.
/// Z 1 H C
pub fn h(cpu: &mut Cpu)
    ensures
        spec_alu_sub_post(*old(cpu), *final(cpu), old(cpu).registers.h, 0),
{
    let v = cpu.registers.h;
    crate::alu::sub_val(cpu, v);
}

/// SUB A,L: subtract L from A.
/// Z 1 H C
pub fn l(cpu: &mut Cpu)
    ensures
        spec_alu_sub_post(*old(cpu), *final(cpu), old(cpu).registers.l, 0),
{
    let v = cpu.registers.l;
    crate::alu::sub_val(cpu, v);
}

/// SUB A,A: subtract A from A.
/// Z 1 H C
pub fn a(cpu: &mut Cpu)
    ensures
        spec_alu_sub_post(*old(cpu), *final(cpu), old(cpu).registers.a, 0),
{
    let v = cpu.registers.a;
    crate::alu::sub_val(cpu, v);
}

/// SUB A,d8: subtract the immediate operand from A.
/// Z 1 H C
pub fn imm(cpu: &mut Cpu)
    requires
        old(cpu).wf(),
    ensures
        spec_alu_sub_post(*old(cpu), *final(cpu), old(cpu).spec_arg_byte(), 0),
{
    let v = cpu.get_byte_argument();
    crate::alu::sub_val(cpu, v);
}

/// SUB A,(HL): subtract the byte at HL from A.
/// Z 1 H C
pub fn hl_ind(cpu: &mut Cpu)
    requires
        old(cpu).wf(),
    ensures
        spec_alu_sub_post(
            *old(cpu),
            *final(cpu),
            old(cpu).memory.spec_read(old(cpu).registers.spec_hl()),
            0,
        ),
{
    let addr = cpu.registers.hl();
    let v = cpu.read_byte(addr);
    crate::alu::sub_val(cpu, v);
}

} // verus!
