//! The store through 0xFF00 + C.

use vstd::prelude::*;
use crate::cpu::Cpu;

verus! {

/// LD (C),A: store A at 0xFF00 + C.
/// - - - -
pub fn a(cpu: &mut Cpu)
    requires
        old(cpu).wf(),
    ensures
        final(cpu).wf(),
        Cpu::spec_store_post(
            *old(cpu),
            *final(cpu),
            old(cpu).registers.a,
            (0xFF00 + old(cpu).registers.c) as u16,
        ),
{
    let byte = cpu.registers.a;
    let addr = 0xFF00 + cpu.registers.c as u16;
    cpu.write_byte(byte, addr);
}

} // verus!
