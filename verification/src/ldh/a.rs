//! LDH with the accumulator as destination.

use vstd::prelude::*;
use crate::cpu::Cpu;
use crate::registers::Registers;

verus! {

/// LDH A,(a8): load A from 0xFF00 plus the immediate offset.
/// - - - -
pub fn addr(cpu: &mut Cpu)
    requires
        old(cpu).wf(),
    ensures
        *final(cpu) == (Cpu {
            registers: Registers {
                a: old(cpu).memory.spec_read((0xFF00 + old(cpu).spec_arg_byte()) as u16),
                ..old(cpu).registers
            },
            ..*old(cpu)
        }),
{
    let offset = cpu.get_byte_argument();
    let addr = 0xFF00 + offset as u16;
    cpu.registers.a = cpu.read_byte(addr);
}

} // verus!
