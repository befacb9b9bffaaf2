//! Stores through the address in HL.

use vstd::prelude::*;
use crate::cpu::Cpu;

verus! {

/// LD (HL),B: store B at the address in HL.
/// - - - -
pub fn b(cpu: &mut Cpu)
    requires
        old(cpu).wf(),
    ensures
        final(cpu).wf(),
        Cpu::spec_store_post(
            *old(cpu),
            *final(cpu),
            old(cpu).registers.b,
            old(cpu).registers.spec_hl(),
        ),
{
    let byte = cpu.registers.b;
    let addr = cpu.registers.hl();
    cpu.write_byte(byte, addr);
}

/// LD (HL),C: store C at the address in HL.
/// - - - -
pub fn c(cpu: &mut Cpu)
    requires
        old(cpu).wf(),
    ensures
        final(cpu).wf(),
        Cpu::spec_store_post(
            *old(cpu),
            *final(cpu),
            old(cpu).registers.c,
            old(cpu).registers.spec_hl(),
        ),
{
    let byte = cpu.registers.c;
    let addr = cpu.registers.hl();
    cpu.write_byte(byte, addr);
}

/// LD (HL),D: store D at the address in HL.
/// - - - -
pub fn d(cpu: &mut Cpu)
    requires
        old(cpu).wf(),
    ensures
        final(cpu).wf(),
        Cpu::spec_store_post(
            *old(cpu),
            *final(cpu),
            old(cpu).registers.d,
            old(cpu).registers.spec_hl(),
        ),
{
    let byte = cpu.registers.d;
    let addr = cpu.registers.hl();
    cpu.write_byte(byte, addr);
}

/// LD (HL),E: store E at the address in HL.
/// - - - -
pub fn e(cpu: &mut Cpu)
    requires
        old(cpu).wf(),
    ensures
        final(cpu).wf(),
        Cpu::spec_store_post(
            *old(cpu),
            *final(cpu),
            old(cpu).registers.e,
            old(cpu).registers.spec_hl(),
        ),
{
    let byte = cpu.registers.e;
    let addr = cpu.registers.hl();
    cpu.write_byte(byte, addr);
}

/// LD (HL),H: store H at the address in HL.
/// - - - -
pub fn h(cpu: &mut Cpu)
    requires
        old(cpu).wf(),
    ensures
        final(cpu).wf(),
        Cpu::spec_store_post(
            *old(cpu),
            *final(cpu),
            old(cpu).registers.h,
            old(cpu).registers.spec_hl(),
        ),
{
    let byte = cpu.registers.h;
    let addr = cpu.registers.hl();
    cpu.write_byte(byte, addr);
}

/// LD (HL),L: store L at the address in HL.
/// - - - -
pub fn l(cpu: &mut Cpu)
    requires
        old(cpu).wf(),
    ensures
        final(cpu).wf(),
        Cpu::spec_store_post(
            *old(cpu),
            *final(cpu),
            old(cpu).registers.l,
            old(cpu).registers.spec_hl(),
        ),
{
    let byte = cpu.registers.l;
    let addr = cpu.registers.hl();
    cpu.write_byte(byte, addr);
}

/// LD (HL),A: store A at the address in HL.
/// - - - -
pub fn a(cpu: &mut Cpu)
    requires
        old(cpu).wf(),
    ensures
        final(cpu).wf(),
        Cpu::spec_store_post(
            *old(cpu),
            *final(cpu),
            old(cpu).registers.a,
            old(cpu).registers.spec_hl(),
        ),
{
    let byte = cpu.registers.a;
    let addr = cpu.registers.hl();
    cpu.write_byte(byte, addr);
}

/// LD (HL),d8: store the immediate operand at the address in HL.
/// - - - -
pub fn imm(cpu: &mut Cpu)
    requires
        old(cpu).wf(),
    ensures
        final(cpu).wf(),
        Cpu::spec_store_post(
            *old(cpu),
            *final(cpu),
            old(cpu).spec_arg_byte(),
            old(cpu).registers.spec_hl(),
        ),
{
    let byte = cpu.get_byte_argument();
    let addr = cpu.registers.hl();
    cpu.write_byte(byte, addr);
}

} // verus!
