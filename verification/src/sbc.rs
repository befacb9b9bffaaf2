//! The SBC instructions: subtract a value and the carry flag from A, the
//! half-borrow and borrow computed over the whole composite difference.

use vstd::prelude::*;
use crate::alu::spec_alu_sub_post;
use crate::cpu::Cpu;

verus! {

/// SBC A,B: subtract B and the carry flag from A.
/// Z 1 H C
pub fn b(cpu: &mut Cpu)
    ensures
        spec_alu_sub_post(*old(cpu), *final(cpu), old(cpu).registers.b, old(cpu).spec_carry_in()),
{
    let v = cpu.registers.b;
    crate::alu::sbc_val(cpu, v);
}

/// SBC A,C: subtract C and the carry flag from A.
/// Z 1 H C
pub fn c(cpu: &mut Cpu)
    ensures
        spec_alu_sub_post(*old(cpu), *final(cpu), old(cpu).registers.c, old(cpu).spec_carry_in()),
{
    let v = cpu.registers.c;
    crate::alu::sbc_val(cpu, v);
}

/// SBC A,D: subtract D and the carry flag from A.
/// Z 1 H C
pub fn d(cpu: &mut Cpu)
    ensures
        spec_alu_sub_post(*old(cpu), *final(cpu), old(cpu).registers.d, old(cpu).spec_carry_in()),
{
    let v = cpu.registers.d;
    crate::alu::sbc_val(cpu, v);
}

/// SBC A,E: subtract E and the carry flag from A.
/// Z 1 H C
pub fn e(cpu: &mut Cpu)
    ensures
        spec_alu_sub_post(*old(cpu), *final(cpu), old(cpu).registers.e, old(cpu).spec_carry_in()),
{
    let v = cpu.registers.e;
    crate::alu::sbc_val(cpu, v);
}

/// SBC A,H: subtract H and the carry flag from A.
/// Z 1 H C
pub fn h(cpu: &mut Cpu)
    ensures
        spec_alu_sub_post(*old(cpu), *final(cpu), old(cpu).registers.h, old(cpu).spec_carry_in()),
{
    let v = cpu.registers.h;
    crate::alu::sbc_val(cpu, v);
}

/// SBC A,L: subtract L and the carry flag from A.
/// Z 1 H C
pub fn l(cpu: &mut Cpu)
    ensures
        spec_alu_sub_post(*old(cpu), *final(cpu), old(cpu).registers.l, old(cpu).spec_carry_in()),
{
    let v = cpu.registers.l;
    crate::alu::sbc_val(cpu, v);
}

/// SBC A,A: subtract A and the carry flag from A.
/// Z 1 H C
pub fn a(cpu: &mut Cpu)
    ensures
        spec_alu_sub_post(*old(cpu), *final(cpu), old(cpu).registers.a, old(cpu).spec_carry_in()),
{
    let v = cpu.registers.a;
    crate::alu::sbc_val(cpu, v);
}

/// SBC A,d8: subtract the immediate operand and the carry flag from A.
/// Z 1 H C
pub fn imm(cpu: &mut Cpu)
    requires
        old(cpu).wf(),
    ensures
        spec_alu_sub_post(*old(cpu), *final(cpu), old(cpu).spec_arg_byte(), old(cpu).spec_carry_in()),
{
    let v = cpu.get_byte_argument();
    crate::alu::sbc_val(cpu, v);
}

/// SBC A,(HL): subtract the byte at HL and the carry flag from A.
/// Z 1 H C
pub fn hl_ind(cpu: &mut Cpu)
    requires
        old(cpu).wf(),
    ensures
        spec_alu_sub_post(
            *old(cpu),
            *final(cpu),
            old(cpu).memory.spec_read(old(cpu).registers.spec_hl()),
            old(cpu).spec_carry_in(),
        ),
{
    let addr = cpu.registers.hl();
    let v = cpu.read_byte(addr);
    crate::alu::sbc_val(cpu, v);
}

} // verus!
