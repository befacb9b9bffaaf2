//! The historic standalone increment of C. Unlike the table-driven INC it
//! only sets Z on a wrap to zero and never clears it.

use vstd::prelude::*;
use crate::alu::{spec_wadd8, wadd8};
use crate::cpu::Cpu;
use crate::flags::FlagRegister;
use crate::registers::Registers;

verus! {

/// Increment C. Z is set when the result wraps to zero and kept otherwise;
/// H is set when the low nibble was 0x0F; C is kept.
/// Z 0 H -
pub fn inc_c(cpu: &mut Cpu)
    ensures
        *final(cpu) == (Cpu {
            registers: Registers {
                c: spec_wadd8(old(cpu).registers.c, 1),
                f: FlagRegister {
                    z: if spec_wadd8(old(cpu).registers.c, 1) == 0 {
                        true
                    } else {
                        old(cpu).registers.f.z
                    },
                    n: false,
                    h: old(cpu).registers.c % 16 == 15,
                    c: old(cpu).registers.f.c,
                },
                ..old(cpu).registers
            },
            ..*old(cpu)
        }),
{
    let c0 = cpu.registers.c;
    let c1 = wadd8(c0, 1);
    cpu.registers.c = c1;
    cpu.registers.f.n = false;
    cpu.registers.f.h = c0 % 16 == 15;
    if c1 == 0 {
        cpu.registers.f.z = true;
    }
}

} // verus!
