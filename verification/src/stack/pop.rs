//! POP: the low byte is read at SP, the high byte above it. POP AF drops
//! the low nibble of the F half, so the flag byte stays a multiple of 16.

use vstd::prelude::*;
use crate::alu::spec_wadd16;
use crate::cpu::Cpu;
use crate::flags::FlagRegister;
use crate::registers::Registers;

verus! {

/// POP BC: pop a word off the stack into the pair.
/// - - - -
pub fn bc(cpu: &mut Cpu)
    requires
        old(cpu).wf(),
    ensures
        *final(cpu) == (Cpu {
            registers: Registers {
                b: (old(cpu).spec_pop_value() / 256) as u8,
                c: (old(cpu).spec_pop_value() % 256) as u8,
                sp: spec_wadd16(old(cpu).registers.sp, 2),
                ..old(cpu).registers
            },
            ..*old(cpu)
        }),
{
    let word = cpu.pop();
    cpu.registers.put_bc(word);
}

/// POP DE: pop a word off the stack into the pair.
/// - - - -
pub fn de(cpu: &mut Cpu)
    requires
        old(cpu).wf(),
    ensures
        *final(cpu) == (Cpu {
            registers: Registers {
                d: (old(cpu).spec_pop_value() / 256) as u8,
                e: (old(cpu).spec_pop_value() % 256) as u8,
                sp: spec_wadd16(old(cpu).registers.sp, 2),
                ..old(cpu).registers
            },
            ..*old(cpu)
        }),
{
    let word = cpu.pop();
    cpu.registers.put_de(word);
}

/// POP HL: pop a word off the stack into the pair.
/// - - - -
pub fn hl(cpu: &mut Cpu)
    requires
        old(cpu).wf(),
    ensures
        *final(cpu) == (Cpu {
            registers: Registers {
                h: (old(cpu).spec_pop_value() / 256) as u8,
                l: (old(cpu).spec_pop_value() % 256) as u8,
                sp: spec_wadd16(old(cpu).registers.sp, 2),
                ..old(cpu).registers
            },
            ..*old(cpu)
        }),
{
    let word = cpu.pop();
    cpu.registers.put_hl(word);
}

/// POP AF: pop a word into A and the flags; the low nibble of the flag
/// half is dropped.
/// Z N H C
pub fn af(cpu: &mut Cpu)
    requires
        old(cpu).wf(),
    ensures
        *final(cpu) == (Cpu {
            registers: Registers {
                a: (old(cpu).spec_pop_value() / 256) as u8,
                f: FlagRegister::spec_from_byte((old(cpu).spec_pop_value() % 256) as u8),
                sp: spec_wadd16(old(cpu).registers.sp, 2),
                ..old(cpu).registers
            },
            ..*old(cpu)
        }),
{
    let word = cpu.pop();
    cpu.registers.put_af(word);
}

} // verus!
