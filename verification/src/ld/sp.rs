//! Loads into the stack pointer.

use vstd::prelude::*;
use crate::cpu::Cpu;
use crate::registers::Registers;

verus! {

/// LD SP,d16: load SP from the immediate word.
/// - - - -
pub fn imm(cpu: &mut Cpu)
    requires
        old(cpu).wf(),
    ensures
        *final(cpu) == (Cpu {
            registers: Registers { sp: old(cpu).spec_arg_word(), ..old(cpu).registers },
            ..*old(cpu)
        }),
{
    let word = cpu.get_word_argument();
    cpu.registers.sp = word;
}

/// LD SP,HL: load SP from HL.
/// - - - -
pub fn hl(cpu: &mut Cpu)
    ensures
        *final(cpu) == (Cpu {
            registers: Registers {
                sp: old(cpu).registers.spec_hl(),
                ..old(cpu).registers
            },
            ..*old(cpu)
        }),
{
    let hl = cpu.registers.hl();
    cpu.registers.sp = hl;
}

} // verus!
