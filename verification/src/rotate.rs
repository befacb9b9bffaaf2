//! The unprefixed accumulator rotates. All four clear Z, N and H
//! unconditionally and move the rotated-out bit into C.

use vstd::prelude::*;
use crate::cpu::Cpu;
use crate::flags::FlagRegister;
use crate::registers::Registers;

verus! {

/// Everything an accumulator rotate changes: A takes the rotated value,
/// C the rotated-out bit, and Z, N, H clear.
pub open spec fn spec_rotate_post(pre: Cpu, post: Cpu, a1: u8, cout: bool) -> bool {
    post == (Cpu {
        registers: Registers {
            a: a1,
            f: FlagRegister { z: false, n: false, h: false, c: cout },
            ..pre.registers
        },
        ..pre
    })
}

/// RLCA: rotate A left; bit 7 moves to bit 0 and to C.
/// 0 0 0 C
pub fn rlca(cpu: &mut Cpu)
    ensures
        spec_rotate_post(
            *old(cpu),
            *final(cpu),
            ((old(cpu).registers.a % 128) * 2 + old(cpu).registers.a / 128) as u8,
            old(cpu).registers.a >= 128,
        ),
{
    let a = cpu.registers.a;
    cpu.registers.a = (a % 128) * 2 + a / 128;
    cpu.registers.f.z = false;
    cpu.registers.f.n = false;
    cpu.registers.f.h = false;
    cpu.registers.f.c = a >= 128;
}

/// RLA: rotate A left through the carry; C becomes bit 0 and bit 7 the
/// new C.
/// 0 0 0 C
pub fn rla(cpu: &mut Cpu)
    ensures
        spec_rotate_post(
            *old(cpu),
            *final(cpu),
            ((old(cpu).registers.a % 128) * 2 + (if old(cpu).registers.f.c {
                1int
            } else {
                0
            })) as u8,
            old(cpu).registers.a >= 128,
        ),
{
    let a = cpu.registers.a;
    let cin: u8 = if cpu.registers.f.c {
        1
    } else {
        0
    };
    cpu.registers.a = (a % 128) * 2 + cin;
    cpu.registers.f.z = false;
    cpu.registers.f.n = false;
    cpu.registers.f.h = false;
    cpu.registers.f.c = a >= 128;
}

/// RRCA: rotate A right; bit 0 moves to bit 7 and to C.
/// 0 0 0 C
pub fn rrca(cpu: &mut Cpu)
    ensures
        spec_rotate_post(
            *old(cpu),
            *final(cpu),
            (old(cpu).registers.a / 2 + (old(cpu).registers.a % 2) * 128) as u8,
            old(cpu).registers.a % 2 == 1,
        ),
{
    let a = cpu.registers.a;
    cpu.registers.a = a / 2 + (a % 2) * 128;
    cpu.registers.f.z = false;
    cpu.registers.f.n = false;
    cpu.registers.f.h = false;
    cpu.registers.f.c = a % 2 == 1;
}

/// RRA: rotate A right through the carry; C becomes bit 7 and bit 0 the
/// new C.
/// 0 0 0 C
pub fn rra(cpu: &mut Cpu)
    ensures
        spec_rotate_post(
            *old(cpu),
            *final(cpu),
            (old(cpu).registers.a / 2 + (if old(cpu).registers.f.c {
                128int
            } else {
                0
            })) as u8,
            old(cpu).registers.a % 2 == 1,
        ),
{
    let a = cpu.registers.a;
    let cin: u8 = if cpu.registers.f.c {
        128
    } else {
        0
    };
    cpu.registers.a = a / 2 + cin;
    cpu.registers.f.z = false;
    cpu.registers.f.n = false;
    cpu.registers.f.h = false;
    cpu.registers.f.c = a % 2 == 1;
}

} // verus!
