//! The store through HL with HL decremented afterwards.

use vstd::prelude::*;
use crate::alu::{spec_wsub16, wsub16};
use crate::cpu::Cpu;
use crate::memmap::spec_write_byte_post;
use crate::registers::Registers;

verus! {

/// Everything the store-and-move changes: A lands at the address in HL
/// and HL ends one lower.
pub open spec fn spec_store_hl_dec_post(pre: Cpu, post: Cpu) -> bool {
    &&& spec_write_byte_post(pre.memory, post.memory, pre.registers.a, pre.registers.spec_hl())
    &&& post == (Cpu {
        registers: Registers {
            h: (spec_wsub16(pre.registers.spec_hl(), 1) / 256) as u8,
            l: (spec_wsub16(pre.registers.spec_hl(), 1) % 256) as u8,
            ..pre.registers
        },
        memory: post.memory,
        ..pre
    })
}

/// LD (HL-),A: store A at the address in HL, then move HL by one.
/// - - - -
pub fn a(cpu: &mut Cpu)
    requires
        old(cpu).wf(),
    ensures
        final(cpu).wf(),
        spec_store_hl_dec_post(*old(cpu), *final(cpu)),
{
    crate::ld::hl_ind::a(cpu);
    let hl1 = wsub16(cpu.registers.hl(), 1);
    cpu.registers.put_hl(hl1);
}

} // verus!
