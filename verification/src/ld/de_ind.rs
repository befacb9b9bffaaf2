//! The store through the address in DE.

use vstd::prelude::*;
use crate::cpu::Cpu;

verus! {

/// LD (DE),A: store A at the address in DE.
/// - - - -
pub fn a(cpu: &mut Cpu)
    requires
        old(cpu).wf(),
    ensures
        final(cpu).wf(),
        Cpu::spec_store_post(
            *old(cpu),
            *final(cpu),
            old(cpu).registers.a,
            old(cpu).registers.spec_de(),
        ),
{
    let byte = cpu.registers.a;
    let addr = cpu.registers.de();
    cpu.write_byte(byte, addr);
}

} // verus!
