//! PUSH: the pair's high byte lands at SP-1, the low byte at SP-2.

use vstd::prelude::*;
use crate::cpu::Cpu;

verus! {

/// PUSH BC: push the pair onto the stack.
/// - - - -
pub fn bc(cpu: &mut Cpu)
    requires
        old(cpu).wf(),
    ensures
        final(cpu).wf(),
        Cpu::spec_push_post(*old(cpu), *final(cpu), old(cpu).registers.spec_bc()),
{
    let word = cpu.registers.bc();
    cpu.push(word);
}

/// PUSH DE: push the pair onto the stack.
/// - - - -
pub fn de(cpu: &mut Cpu)
    requires
        old(cpu).wf(),
    ensures
        final(cpu).wf(),
        Cpu::spec_push_post(*old(cpu), *final(cpu), old(cpu).registers.spec_de()),
{
    let word = cpu.registers.de();
    cpu.push(word);
}

/// PUSH HL: push the pair onto the stack.
/// - - - -
pub fn hl(cpu: &mut Cpu)
    requires
        old(cpu).wf(),
    ensures
        final(cpu).wf(),
        Cpu::spec_push_post(*old(cpu), *final(cpu), old(cpu).registers.spec_hl()),
{
    let word = cpu.registers.hl();
    cpu.push(word);
}

/// PUSH AF: push the pair onto the stack.
/// - - - -
pub fn af(cpu: &mut Cpu)
    requires
        old(cpu).wf(),
    ensures
        final(cpu).wf(),
        Cpu::spec_push_post(*old(cpu), *final(cpu), old(cpu).registers.spec_af()),
{
    let word = cpu.registers.af();
    cpu.push(word);
}

} // verus!
