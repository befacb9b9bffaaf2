//! Loads into the DE pair.

use vstd::prelude::*;
use crate::cpu::Cpu;
use crate::registers::Registers;

verus! {

/// LD DE,d16: load the pair from the immediate word.
/// - - - -
pub fn imm(cpu: &mut Cpu)
    requires
        old(cpu).wf(),
    ensures
        *final(cpu) == (Cpu {
            registers: Registers {
                d: (old(cpu).spec_arg_word() / 256) as u8,
                e: (old(cpu).spec_arg_word() % 256) as u8,
                ..old(cpu).registers
            },
            ..*old(cpu)
        }),
{
    let word = cpu.get_word_argument();
    cpu.registers.put_de(word);
}

} // verus!
