//! The store through the address in BC.

use vstd::prelude::*;
use crate::cpu::Cpu;

verus! {

/// LD (BC),A: store A at the address in BC.
/// - - - -
pub fn a(cpu: &mut Cpu)
    requires
        old(cpu).wf(),
    ensures
        final(cpu).wf(),
        Cpu::spec_store_post(
            *old(cpu),
            *final(cpu),
            old(cpu).registers.a,
            old(cpu).registers.spec_bc(),
        ),
{
    let byte = cpu.registers.a;
    let addr = cpu.registers.bc();
    cpu.write_byte(byte, addr);
}

} // verus!
