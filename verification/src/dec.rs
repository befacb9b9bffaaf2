//! The DEC instructions: eight-bit decrements with their flags, pair and
//! SP decrements without, and the decrement of the byte at HL.

use vstd::prelude::*;
use crate::alu::{spec_wsub16, spec_wsub8, wsub16, wsub8};
use crate::cpu::Cpu;
use crate::flags::FlagRegister;
use crate::memmap::spec_write_byte_post;
use crate::registers::Registers;

verus! {

/// The flags after an eight-bit decrement of a register that held `r0`:
/// Z from the wrapped result, N set, H when the low nibble was zero,
/// C kept.
pub open spec fn spec_dec8_flags(f: FlagRegister, r0: u8) -> FlagRegister {
    FlagRegister { z: spec_wsub8(r0, 1) == 0, n: true, h: r0 % 16 == 0, c: f.c }
}

/// DEC A: decrement the register. H is set when the low nibble
/// was zero, Z when the result is zero; C is kept.
/// Z 1 H -
pub fn a(cpu: &mut Cpu)
    ensures
        *final(cpu) == (Cpu {
            registers: Registers {
                a: spec_wsub8(old(cpu).registers.a, 1),
                f: spec_dec8_flags(old(cpu).registers.f, old(cpu).registers.a),
                ..old(cpu).registers
            },
            ..*old(cpu)
        }),
{
    let r0 = cpu.registers.a;
    let r1 = wsub8(r0, 1);
    cpu.registers.a = r1;
    cpu.registers.f.z = r1 == 0;
    cpu.registers.f.n = true;
    cpu.registers.f.h = r0 % 16 == 0;
}

/// DEC B: decrement the register. H is set when the low nibble
/// was zero, Z when the result is zero; C is kept.
/// Z 1 H -
pub fn b(cpu: &mut Cpu)
    ensures
        *final(cpu) == (Cpu {
            registers: Registers {
                b: spec_wsub8(old(cpu).registers.b, 1),
                f: spec_dec8_flags(old(cpu).registers.f, old(cpu).registers.b),
                ..old(cpu).registers
            },
            ..*old(cpu)
        }),
{
    let r0 = cpu.registers.b;
    let r1 = wsub8(r0, 1);
    cpu.registers.b = r1;
    cpu.registers.f.z = r1 == 0;
    cpu.registers.f.n = true;
    cpu.registers.f.h = r0 % 16 == 0;
}

/// DEC C: decrement the register. H is set when the low nibble
/// was zero, Z when the result is zero; C is kept.
/// Z 1 H -
pub fn c(cpu: &mut Cpu)
    ensures
        *final(cpu) == (Cpu {
            registers: Registers {
                c: spec_wsub8(old(cpu).registers.c, 1),
                f: spec_dec8_flags(old(cpu).registers.f, old(cpu).registers.c),
                ..old(cpu).registers
            },
            ..*old(cpu)
        }),
{
    let r0 = cpu.registers.c;
    let r1 = wsub8(r0, 1);
    cpu.registers.c = r1;
    cpu.registers.f.z = r1 == 0;
    cpu.registers.f.n = true;
    cpu.registers.f.h = r0 % 16 == 0;
}

/// DEC D: decrement the register. H is set when the low nibble
/// was zero, Z when the result is zero; C is kept.
/// Z 1 H -
pub fn d(cpu: &mut Cpu)
    ensures
        *final(cpu) == (Cpu {
            registers: Registers {
                d: spec_wsub8(old(cpu).registers.d, 1),
                f: spec_dec8_flags(old(cpu).registers.f, old(cpu).registers.d),
                ..old(cpu).registers
            },
            ..*old(cpu)
        }),
{
    let r0 = cpu.registers.d;
    let r1 = wsub8(r0, 1);
    cpu.registers.d = r1;
    cpu.registers.f.z = r1 == 0;
    cpu.registers.f.n = true;
    cpu.registers.f.h = r0 % 16 == 0;
}

/// DEC E: decrement the register. H is set when the low nibble
/// was zero, Z when the result is zero; C is kept.
/// Z 1 H -
pub fn e(cpu: &mut Cpu)
    ensures
        *final(cpu) == (Cpu {
            registers: Registers {
                e: spec_wsub8(old(cpu).registers.e, 1),
                f: spec_dec8_flags(old(cpu).registers.f, old(cpu).registers.e),
                ..old(cpu).registers
            },
            ..*old(cpu)
        }),
{
    let r0 = cpu.registers.e;
    let r1 = wsub8(r0, 1);
    cpu.registers.e = r1;
    cpu.registers.f.z = r1 == 0;
    cpu.registers.f.n = true;
    cpu.registers.f.h = r0 % 16 == 0;
}

/// DEC H: decrement the register. H is set when the low nibble
/// was zero, Z when the result is zero; C is kept.
/// Z 1 H -
pub fn h(cpu: &mut Cpu)
    ensures
        *final(cpu) == (Cpu {
            registers: Registers {
                h: spec_wsub8(old(cpu).registers.h, 1),
                f: spec_dec8_flags(old(cpu).registers.f, old(cpu).registers.h),
                ..old(cpu).registers
            },
            ..*old(cpu)
        }),
{
    let r0 = cpu.registers.h;
    let r1 = wsub8(r0, 1);
    cpu.registers.h = r1;
    cpu.registers.f.z = r1 == 0;
    cpu.registers.f.n = true;
    cpu.registers.f.h = r0 % 16 == 0;
}

/// DEC L: decrement the register. H is set when the low nibble
/// was zero, Z when the result is zero; C is kept.
/// Z 1 H -
pub fn l(cpu: &mut Cpu)
    ensures
        *final(cpu) == (Cpu {
            registers: Registers {
                l: spec_wsub8(old(cpu).registers.l, 1),
                f: spec_dec8_flags(old(cpu).registers.f, old(cpu).registers.l),
                ..old(cpu).registers
            },
            ..*old(cpu)
        }),
{
    let r0 = cpu.registers.l;
    let r1 = wsub8(r0, 1);
    cpu.registers.l = r1;
    cpu.registers.f.z = r1 == 0;
    cpu.registers.f.n = true;
    cpu.registers.f.h = r0 % 16 == 0;
}

/// DEC BC: decrement the pair; no flag moves.
/// - - - -
pub fn bc(cpu: &mut Cpu)
    ensures
        *final(cpu) == (Cpu {
            registers: Registers {
                b: (spec_wsub16(old(cpu).registers.spec_bc(), 1) / 256) as u8,
                c: (spec_wsub16(old(cpu).registers.spec_bc(), 1) % 256) as u8,
                ..old(cpu).registers
            },
            ..*old(cpu)
        }),
{
    let v = wsub16(cpu.registers.bc(), 1);
    cpu.registers.put_bc(v);
}

/// DEC DE: decrement the pair; no flag moves.
/// - - - -
pub fn de(cpu: &mut Cpu)
    ensures
        *final(cpu) == (Cpu {
            registers: Registers {
                d: (spec_wsub16(old(cpu).registers.spec_de(), 1) / 256) as u8,
                e: (spec_wsub16(old(cpu).registers.spec_de(), 1) % 256) as u8,
                ..old(cpu).registers
            },
            ..*old(cpu)
        }),
{
    let v = wsub16(cpu.registers.de(), 1);
    cpu.registers.put_de(v);
}

/// DEC HL: decrement the pair; no flag moves.
/// - - - -
pub fn hl(cpu: &mut Cpu)
    ensures
        *final(cpu) == (Cpu {
            registers: Registers {
                h: (spec_wsub16(old(cpu).registers.spec_hl(), 1) / 256) as u8,
                l: (spec_wsub16(old(cpu).registers.spec_hl(), 1) % 256) as u8,
                ..old(cpu).registers
            },
            ..*old(cpu)
        }),
{
    let v = wsub16(cpu.registers.hl(), 1);
    cpu.registers.put_hl(v);
}

/// DEC SP: decrement the stack pointer; no flag moves.
/// - - - -
pub fn sp(cpu: &mut Cpu)
    ensures
        *final(cpu) == (Cpu {
            registers: Registers {
                sp: spec_wsub16(old(cpu).registers.sp, 1),
                ..old(cpu).registers
            },
            ..*old(cpu)
        }),
{
    let v = wsub16(cpu.registers.sp, 1);
    cpu.registers.sp = v;
}

/// Everything DEC (HL) changes: the byte at HL is decremented in place and
/// the eight-bit decrement flags are set from its old value.
pub open spec fn spec_dec_hl_ind_post(pre: Cpu, post: Cpu) -> bool {
    let addr = pre.registers.spec_hl();
    let v0 = pre.memory.spec_read(addr);
    &&& spec_write_byte_post(pre.memory, post.memory, spec_wsub8(v0, 1), addr)
    &&& post == (Cpu {
        registers: Registers { f: spec_dec8_flags(pre.registers.f, v0), ..pre.registers },
        memory: post.memory,
        ..pre
    })
}

/// DEC (HL): decrement the byte at HL in place.
/// Z 1 H -
pub fn hl_ind(cpu: &mut Cpu)
    requires
        old(cpu).wf(),
    ensures
        final(cpu).wf(),
        spec_dec_hl_ind_post(*old(cpu), *final(cpu)),
{
    let addr = cpu.registers.hl();
    let v0 = cpu.read_byte(addr);
    let v1 = wsub8(v0, 1);
    cpu.write_byte(v1, addr);
    cpu.registers.f.z = v1 == 0;
    cpu.registers.f.n = true;
    cpu.registers.f.h = v0 % 16 == 0;
}

} // verus!
