//! ADC with the accumulator as destination, one function per source.

use vstd::prelude::*;
use crate::alu::spec_alu_add_post;
use crate::cpu::Cpu;

verus! {

/// ADC A,B: add B and the carry flag to A.
/// Z 0 H C
pub fn b(cpu: &mut Cpu)
    ensures
        spec_alu_add_post(*old(cpu), *final(cpu), old(cpu).registers.b, old(cpu).spec_carry_in()),
{
    let v = cpu.registers.b;
    crate::alu::adc_val(cpu, v);
}

/// ADC A,C: add C and the carry flag to A.
/// Z 0 H C
pub fn c(cpu: &mut Cpu)
    ensures
        spec_alu_add_post(*old(cpu), *final(cpu), old(cpu).registers.c, old(cpu).spec_carry_in()),
{
    let v = cpu.registers.c;
    crate::alu::adc_val(cpu, v);
}

/// ADC A,D: add D and the carry flag to A.
/// Z 0 H C
pub fn d(cpu: &mut Cpu)
    ensures
        spec_alu_add_post(*old(cpu), *final(cpu), old(cpu).registers.d, old(cpu).spec_carry_in()),
{
    let v = cpu.registers.d;
    crate::alu::adc_val(cpu, v);
}

/// ADC A,E: add E and the carry flag to A.
/// Z 0 H C
pub fn e(cpu: &mut Cpu)
    ensures
        spec_alu_add_post(*old(cpu), *final(cpu), old(cpu).registers.e, old(cpu).spec_carry_in()),
{
    let v = cpu.registers.e;
    crate::alu::adc_val(cpu, v);
}

/// ADC A,H: add H and the carry flag to A.
/// Z 0 H C
pub fn h(cpu: &mut Cpu)
    ensures
        spec_alu_add_post(*old(cpu), *final(cpu), old(cpu).registers.h, old(cpu).spec_carry_in()),
{
    let v = cpu.registers.h;
    crate::alu::adc_val(cpu, v);
}

/// ADC A,L: add L and the carry flag to A.
/// Z 0 H C
pub fn l(cpu: &mut Cpu)
    ensures
        spec_alu_add_post(*old(cpu), *final(cpu), old(cpu).registers.l, old(cpu).spec_carry_in()),
{
    let v = cpu.registers.l;
    crate::alu::adc_val(cpu, v);
}

/// ADC A,A: add A and the carry flag to A.
/// Z 0 H C
pub fn a(cpu: &mut Cpu)
    ensures
        spec_alu_add_post(*old(cpu), *final(cpu), old(cpu).registers.a, old(cpu).spec_carry_in()),
{
    let v = cpu.registers.a;
    crate::alu::adc_val(cpu, v);
}

/// ADC A,d8: add the immediate operand and the carry flag to A.
/// Z 0 H C
pub fn imm(cpu: &mut Cpu)
    requires
        old(cpu).wf(),
    ensures
        spec_alu_add_post(*old(cpu), *final(cpu), old(cpu).spec_arg_byte(), old(cpu).spec_carry_in()),
{
    let v = cpu.get_byte_argument();
    crate::alu::adc_val(cpu, v);
}

/// ADC A,(HL): add the byte at HL and the carry flag to A.
/// Z 0 H C
pub fn hl_ind(cpu: &mut Cpu)
    requires
        old(cpu).wf(),
    ensures
        spec_alu_add_post(
            *old(cpu),
            *final(cpu),
            old(cpu).memory.spec_read(old(cpu).registers.spec_hl()),
            old(cpu).spec_carry_in(),
        ),
{
    let addr = cpu.registers.hl();
    let v = cpu.read_byte(addr);
    crate::alu::adc_val(cpu, v);
}

} // verus!
