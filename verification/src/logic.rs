//! CPL, CCF, SCF and the decimal adjust DAA.

use vstd::prelude::*;
use crate::cpu::Cpu;
use crate::flags::FlagRegister;
use crate::registers::Registers;

verus! {

/// A after a decimal adjust: after an addition (N clear) each invalid BCD
/// nibble, or one flagged by H or C, gains 6; after a subtraction (N set)
/// the flagged nibbles lose 6.
pub open spec fn spec_daa_a(a: u8, f: FlagRegister) -> u8 {
    if !f.n {
        (((a + (if f.c || a > 0x99 {
            0x60int
        } else {
            0
        }) + (if f.h || a % 16 > 9 {
            0x06int
        } else {
            0
        })) % 0x100) as u8)
    } else {
        (((a - (if f.c {
            0x60int
        } else {
            0
        }) - (if f.h {
            0x06int
        } else {
            0
        }) + 0x100) % 0x100) as u8)
    }
}

/// The carry after a decimal adjust: after an addition it is set exactly
/// when the high digit was adjusted; after a subtraction it is kept.
pub open spec fn spec_daa_c(a: u8, f: FlagRegister) -> bool {
    if !f.n {
        f.c || a > 0x99
    } else {
        f.c
    }
}

/// Everything DAA changes: A is adjusted, Z follows the adjusted A, H
/// clears, N is kept and C as `spec_daa_c` says.
pub open spec fn spec_daa_post(pre: Cpu, post: Cpu) -> bool {
    post == (Cpu {
        registers: Registers {
            a: spec_daa_a(pre.registers.a, pre.registers.f),
            f: FlagRegister {
                z: spec_daa_a(pre.registers.a, pre.registers.f) == 0,
                n: pre.registers.f.n,
                h: false,
                c: spec_daa_c(pre.registers.a, pre.registers.f),
            },
            ..pre.registers
        },
        ..pre
    })
}

/// CPL: complement A; N and H are set, Z and C kept.
/// - 1 1 -
pub fn cpl(cpu: &mut Cpu)
    ensures
        *final(cpu) == (Cpu {
            registers: Registers {
                a: (255 - old(cpu).registers.a) as u8,
                f: FlagRegister { n: true, h: true, ..old(cpu).registers.f },
                ..old(cpu).registers
            },
            ..*old(cpu)
        }),
{
    cpu.registers.f.n = true;
    cpu.registers.f.h = true;
    cpu.registers.a = 255 - cpu.registers.a;
}

/// CCF: toggle C; N and H clear, Z kept.
/// - 0 0 C
pub fn ccf(cpu: &mut Cpu)
    ensures
        *final(cpu) == (Cpu {
            registers: Registers {
                f: FlagRegister {
                    z: old(cpu).registers.f.z,
                    n: false,
                    h: false,
                    c: !old(cpu).registers.f.c,
                },
                ..old(cpu).registers
            },
            ..*old(cpu)
        }),
{
    cpu.registers.f.n = false;
    cpu.registers.f.h = false;
    cpu.registers.f.c = !cpu.registers.f.c;
}

/// SCF: set C; N and H clear, Z kept.
/// - 0 0 1
pub fn scf(cpu: &mut Cpu)
    ensures
        *final(cpu) == (Cpu {
            registers: Registers {
                f: FlagRegister { z: old(cpu).registers.f.z, n: false, h: false, c: true },
                ..old(cpu).registers
            },
            ..*old(cpu)
        }),
{
    cpu.registers.f.n = false;
    cpu.registers.f.h = false;
    cpu.registers.f.c = true;
}

/// DAA: adjust A so that both nibbles are valid BCD digits after an
/// addition or subtraction of BCD operands. Z follows the adjusted A,
/// H clears, N is kept, C as `spec_daa_c` says.
/// Z - 0 C
pub fn daa(cpu: &mut Cpu)
    ensures
        spec_daa_post(*old(cpu), *final(cpu)),
{
    let a = cpu.registers.a;
    if !cpu.registers.f.n {
        let hi_adjust: u16 = if cpu.registers.f.c || a > 0x99 {
            0x60
        } else {
            0
        };
        let lo_adjust: u16 = if cpu.registers.f.h || a % 16 > 9 {
            0x06
        } else {
            0
        };
        let a1 = ((a as u16 + hi_adjust + lo_adjust) % 0x100) as u8;
        cpu.registers.a = a1;
        cpu.registers.f.c = hi_adjust != 0;
        cpu.registers.f.z = a1 == 0;
        cpu.registers.f.h = false;
    } else {
        let hi_adjust: u16 = if cpu.registers.f.c {
            0x60
        } else {
            0
        };
        let lo_adjust: u16 = if cpu.registers.f.h {
            0x06
        } else {
            0
        };
        let a1 = ((a as u16 + 0x100 - hi_adjust - lo_adjust) % 0x100) as u8;
        cpu.registers.a = a1;
        cpu.registers.f.z = a1 == 0;
        cpu.registers.f.h = false;
    }
}

} // verus!
