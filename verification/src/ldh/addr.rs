//! LDH with a high-page address as destination.

use vstd::prelude::*;
use crate::cpu::Cpu;

verus! {

/// LDH (a8),A: store A at 0xFF00 plus the immediate offset.
/// - - - -
pub fn a(cpu: &mut Cpu)
    requires
        old(cpu).wf(),
    ensures
        final(cpu).wf(),
        Cpu::spec_store_post(
            *old(cpu),
            *final(cpu),
            old(cpu).registers.a,
            (0xFF00 + old(cpu).spec_arg_byte()) as u16,
        ),
{
    let offset = cpu.get_byte_argument();
    let addr = 0xFF00 + offset as u16;
    let byte = cpu.registers.a;
    cpu.write_byte(byte, addr);
}

} // verus!
