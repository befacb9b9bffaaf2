//! Loads into the accumulator.

use vstd::prelude::*;
use crate::alu::{spec_wadd16, spec_wsub16, wadd16, wsub16};
use crate::cpu::Cpu;
use crate::registers::Registers;

verus! {

/// LD A,B: load A from B.
/// - - - -
pub fn b(cpu: &mut Cpu)
    ensures
        *final(cpu) == (Cpu {
            registers: Registers { a: old(cpu).registers.b, ..old(cpu).registers },
            ..*old(cpu)
        }),
{
    cpu.registers.a = cpu.registers.b;
}

/// LD A,C: load A from C.
/// - - - -
pub fn c(cpu: &mut Cpu)
    ensures
        *final(cpu) == (Cpu {
            registers: Registers { a: old(cpu).registers.c, ..old(cpu).registers },
            ..*old(cpu)
        }),
{
    cpu.registers.a = cpu.registers.c;
}

/// LD A,D: load A from D.
/// - - - -
pub fn d(cpu: &mut Cpu)
    ensures
        *final(cpu) == (Cpu {
            registers: Registers { a: old(cpu).registers.d, ..old(cpu).registers },
            ..*old(cpu)
        }),
{
    cpu.registers.a = cpu.registers.d;
}

/// LD A,E: load A from E.
/// - - - -
pub fn e(cpu: &mut Cpu)
    ensures
        *final(cpu) == (Cpu {
            registers: Registers { a: old(cpu).registers.e, ..old(cpu).registers },
            ..*old(cpu)
        }),
{
    cpu.registers.a = cpu.registers.e;
}

/// LD A,H: load A from H.
/// - - - -
pub fn h(cpu: &mut Cpu)
    ensures
        *final(cpu) == (Cpu {
            registers: Registers { a: old(cpu).registers.h, ..old(cpu).registers },
            ..*old(cpu)
        }),
{
    cpu.registers.a = cpu.registers.h;
}

/// LD A,L: load A from L.
/// - - - -
pub fn l(cpu: &mut Cpu)
    ensures
        *final(cpu) == (Cpu {
            registers: Registers { a: old(cpu).registers.l, ..old(cpu).registers },
            ..*old(cpu)
        }),
{
    cpu.registers.a = cpu.registers.l;
}

/// LD A,A: load A from A.
/// - - - -
pub fn a(cpu: &mut Cpu)
    ensures
        *final(cpu) == (Cpu {
            registers: Registers { a: old(cpu).registers.a, ..old(cpu).registers },
            ..*old(cpu)
        }),
{
    cpu.registers.a = cpu.registers.a;
}

/// LD A,d8: load A from the immediate operand.
/// - - - -
pub fn imm(cpu: &mut Cpu)
    requires
        old(cpu).wf(),
    ensures
        *final(cpu) == (Cpu {
            registers: Registers { a: old(cpu).spec_arg_byte(), ..old(cpu).registers },
            ..*old(cpu)
        }),
{
    cpu.registers.a = cpu.get_byte_argument();
}

/// LD A,(HL): load A from the byte at HL.
/// - - - -
pub fn hl_ind(cpu: &mut Cpu)
    requires
        old(cpu).wf(),
    ensures
        *final(cpu) == (Cpu {
            registers: Registers {
                a: old(cpu).memory.spec_read(old(cpu).registers.spec_hl()),
                ..old(cpu).registers
            },
            ..*old(cpu)
        }),
{
    let addr = cpu.registers.hl();
    cpu.registers.a = cpu.read_byte(addr);
}

/// LD A,(BC): load A from the byte at BC.
/// - - - -
pub fn bc_ind(cpu: &mut Cpu)
    requires
        old(cpu).wf(),
    ensures
        *final(cpu) == (Cpu {
            registers: Registers {
                a: old(cpu).memory.spec_read(old(cpu).registers.spec_bc()),
                ..old(cpu).registers
            },
            ..*old(cpu)
        }),
{
    let addr = cpu.registers.bc();
    cpu.registers.a = cpu.read_byte(addr);
}

/// LD A,(DE): load A from the byte at DE.
/// - - - -
pub fn de_ind(cpu: &mut Cpu)
    requires
        old(cpu).wf(),
    ensures
        *final(cpu) == (Cpu {
            registers: Registers {
                a: old(cpu).memory.spec_read(old(cpu).registers.spec_de()),
                ..old(cpu).registers
            },
            ..*old(cpu)
        }),
{
    let addr = cpu.registers.de();
    cpu.registers.a = cpu.read_byte(addr);
}

/// LD A,(HL+): load A from the byte at HL, then increment HL.
/// - - - -
pub fn hl_ind_add(cpu: &mut Cpu)
    requires
        old(cpu).wf(),
    ensures
        *final(cpu) == (Cpu {
            registers: Registers {
                a: old(cpu).memory.spec_read(old(cpu).registers.spec_hl()),
                h: (spec_wadd16(old(cpu).registers.spec_hl(), 1) / 256) as u8,
                l: (spec_wadd16(old(cpu).registers.spec_hl(), 1) % 256) as u8,
                ..old(cpu).registers
            },
            ..*old(cpu)
        }),
{
    hl_ind(cpu);
    let hl1 = wadd16(cpu.registers.hl(), 1);
    cpu.registers.put_hl(hl1);
}

/// LD A,(HL-): load A from the byte at HL, then decrement HL.
/// - - - -
pub fn hl_ind_sub(cpu: &mut Cpu)
    requires
        old(cpu).wf(),
    ensures
        *final(cpu) == (Cpu {
            registers: Registers {
                a: old(cpu).memory.spec_read(old(cpu).registers.spec_hl()),
                h: (spec_wsub16(old(cpu).registers.spec_hl(), 1) / 256) as u8,
                l: (spec_wsub16(old(cpu).registers.spec_hl(), 1) % 256) as u8,
                ..old(cpu).registers
            },
            ..*old(cpu)
        }),
{
    hl_ind(cpu);
    let hl1 = wsub16(cpu.registers.hl(), 1);
    cpu.registers.put_hl(hl1);
}

/// LD A,(a16): load A from the byte at the operand address.
/// - - - -
pub fn addr(cpu: &mut Cpu)
    requires
        old(cpu).wf(),
    ensures
        *final(cpu) == (Cpu {
            registers: Registers {
                a: old(cpu).memory.spec_read(old(cpu).spec_arg_word()),
                ..old(cpu).registers
            },
            ..*old(cpu)
        }),
{
    let addr = cpu.get_word_argument();
    cpu.registers.a = cpu.read_byte(addr);
}

/// LD A,(C): load A from the byte at 0xFF00 + C.
/// - - - -
pub fn c_ind(cpu: &mut Cpu)
    requires
        old(cpu).wf(),
    ensures
        *final(cpu) == (Cpu {
            registers: Registers {
                a: old(cpu).memory.spec_read((0xFF00 + old(cpu).registers.c) as u16),
                ..old(cpu).registers
            },
            ..*old(cpu)
        }),
{
    let addr = 0xFF00 + cpu.registers.c as u16;
    cpu.registers.a = cpu.read_byte(addr);
}

} // verus!
