//! Wrapping 8/16-bit arithmetic helpers and the spec-level flag algebra of
//! the eight-bit arithmetic/logic instructions.

use vstd::prelude::*;

verus! {

/// `(a + b) mod 2^16`.
pub open spec fn spec_wadd16(a: u16, b: u16) -> u16 {
    ((a + b) % 0x10000) as u16
}

/// `(a - b) mod 2^16`.
pub open spec fn spec_wsub16(a: u16, b: u16) -> u16 {
    ((a - b + 0x10000) % 0x10000) as u16
}

/// `(a + b) mod 2^8`.
pub open spec fn spec_wadd8(a: u8, b: u8) -> u8 {
    ((a + b) % 0x100) as u8
}

/// `(a - b) mod 2^8`.
pub open spec fn spec_wsub8(a: u8, b: u8) -> u8 {
    ((a - b + 0x100) % 0x100) as u8
}

/// 16-bit wrapping addition.
pub fn wadd16(a: u16, b: u16) -> (r: u16)
    ensures
        r == spec_wadd16(a, b),
{
    (((a as u32) + (b as u32)) % 0x10000) as u16
}

/// 16-bit wrapping subtraction.
pub fn wsub16(a: u16, b: u16) -> (r: u16)
    ensures
        r == spec_wsub16(a, b),
{
    (((a as u32) + 0x10000 - (b as u32)) % 0x10000) as u16
}

/// 8-bit wrapping addition.
pub fn wadd8(a: u8, b: u8) -> (r: u8)
    ensures
        r == spec_wadd8(a, b),
{
    (((a as u16) + (b as u16)) % 0x100) as u8
}

/// 8-bit wrapping subtraction.
pub fn wsub8(a: u8, b: u8) -> (r: u8)
    ensures
        r == spec_wsub8(a, b),
{
    (((a as u16) + 0x100 - (b as u16)) % 0x100) as u8
}

/// A byte sign-extended to sixteen bits.
pub open spec fn spec_sign_extend(byte: u8) -> u16 {
    if byte >= 0x80 {
        (0xFF00 + byte) as u16
    } else {
        byte as u16
    }
}

/// The half-carry of an eight-bit addition with carry-in: the low nibbles
/// and the carry sum past 0x0F.
pub open spec fn spec_add_half_carry(a: u8, v: u8, cin: int) -> bool {
    a % 16 + v % 16 + cin > 0x0F
}

/// The carry of an eight-bit addition with carry-in: the sum passes 0xFF.
pub open spec fn spec_add_carry(a: u8, v: u8, cin: int) -> bool {
    a + v + cin > 0xFF
}

/// The result of an eight-bit addition with carry-in, modulo 256.
pub open spec fn spec_add_result(a: u8, v: u8, cin: int) -> u8 {
    ((a + v + cin) % 0x100) as u8
}

/// The half-borrow of an eight-bit subtraction with borrow-in: the low
/// nibble of the minuend cannot cover the low nibble of the subtrahend
/// and the borrow.
pub open spec fn spec_sub_half_carry(a: u8, v: u8, cin: int) -> bool {
    (a % 16) < v % 16 + cin
}

/// The borrow of an eight-bit subtraction with borrow-in.
pub open spec fn spec_sub_carry(a: u8, v: u8, cin: int) -> bool {
    (a as int) < v + cin
}

/// The result of an eight-bit subtraction with borrow-in, modulo 256.
pub open spec fn spec_sub_result(a: u8, v: u8, cin: int) -> u8 {
    ((a - v - cin + 0x200) % 0x100) as u8
}

/// The half-carry of the 16-bit HL addition: carry out of bit 11.
pub open spec fn spec_add16_half_carry(a: u16, v: u16) -> bool {
    a % 0x1000 + v % 0x1000 > 0x0FFF
}

/// The carry of the 16-bit HL addition: carry out of bit 15.
pub open spec fn spec_add16_carry(a: u16, v: u16) -> bool {
    a + v > 0xFFFF
}

/// Everything an eight-bit addition into A changes: A takes the sum modulo
/// 256, Z/N/H/C follow the composite formulas over both operands and the
/// carry-in, and nothing else moves.
pub open spec fn spec_alu_add_post(pre: crate::cpu::Cpu, post: crate::cpu::Cpu, v: u8, cin: int)
    -> bool {
    post == (crate::cpu::Cpu {
        registers: crate::registers::Registers {
            a: spec_add_result(pre.registers.a, v, cin),
            f: crate::flags::FlagRegister {
                z: spec_add_result(pre.registers.a, v, cin) == 0,
                n: false,
                h: spec_add_half_carry(pre.registers.a, v, cin),
                c: spec_add_carry(pre.registers.a, v, cin),
            },
            ..pre.registers
        },
        ..pre
    })
}

/// Everything an eight-bit subtraction from A changes: A takes the
/// difference modulo 256, Z/N/H/C follow the composite borrow formulas,
/// and nothing else moves.
pub open spec fn spec_alu_sub_post(pre: crate::cpu::Cpu, post: crate::cpu::Cpu, v: u8, cin: int)
    -> bool {
    post == (crate::cpu::Cpu {
        registers: crate::registers::Registers {
            a: spec_sub_result(pre.registers.a, v, cin),
            f: crate::flags::FlagRegister {
                z: spec_sub_result(pre.registers.a, v, cin) == 0,
                n: true,
                h: spec_sub_half_carry(pre.registers.a, v, cin),
                c: spec_sub_carry(pre.registers.a, v, cin),
            },
            ..pre.registers
        },
        ..pre
    })
}

/// Everything a compare of A with `v` changes: only the flags, set as the
/// subtraction would set them; A itself is kept.
pub open spec fn spec_alu_cp_post(pre: crate::cpu::Cpu, post: crate::cpu::Cpu, v: u8) -> bool {
    post == (crate::cpu::Cpu {
        registers: crate::registers::Registers {
            f: crate::flags::FlagRegister {
                z: pre.registers.a == v,
                n: true,
                h: spec_sub_half_carry(pre.registers.a, v, 0),
                c: spec_sub_carry(pre.registers.a, v, 0),
            },
            ..pre.registers
        },
        ..pre
    })
}

/// Everything a bitwise operation into A changes: A takes the given
/// result, Z follows it, N and C clear, H takes the given value, and
/// nothing else moves.
pub open spec fn spec_alu_bitwise_post(
    pre: crate::cpu::Cpu,
    post: crate::cpu::Cpu,
    result: u8,
    hflag: bool,
) -> bool {
    post == (crate::cpu::Cpu {
        registers: crate::registers::Registers {
            a: result,
            f: crate::flags::FlagRegister { z: result == 0, n: false, h: hflag, c: false },
            ..pre.registers
        },
        ..pre
    })
}

/// ADD: add `v` to A.
pub fn add_val(cpu: &mut crate::cpu::Cpu, v: u8)
    ensures
        spec_alu_add_post(*old(cpu), *final(cpu), v, 0),
{
    let a = cpu.registers.a;
    let sum: u16 = a as u16 + v as u16;
    cpu.registers.a = (sum % 256) as u8;
    cpu.registers.f.z = (sum % 256) == 0;
    cpu.registers.f.n = false;
    cpu.registers.f.h = a % 16 + v % 16 > 0x0F;
    cpu.registers.f.c = sum > 0xFF;
}

/// ADC: add `v` and the carry flag to A, half-carry and carry computed
/// over the whole composite sum.
pub fn adc_val(cpu: &mut crate::cpu::Cpu, v: u8)
    ensures
        spec_alu_add_post(
            *old(cpu),
            *final(cpu),
            v,
            if old(cpu).registers.f.c {
                1int
            } else {
                0int
            },
        ),
{
    let a = cpu.registers.a;
    let cin: u16 = if cpu.registers.f.c {
        1
    } else {
        0
    };
    let sum: u16 = a as u16 + v as u16 + cin;
    cpu.registers.a = (sum % 256) as u8;
    cpu.registers.f.z = (sum % 256) == 0;
    cpu.registers.f.n = false;
    cpu.registers.f.h = a as u16 % 16 + v as u16 % 16 + cin > 0x0F;
    cpu.registers.f.c = sum > 0xFF;
}

/// SUB: subtract `v` from A.
pub fn sub_val(cpu: &mut crate::cpu::Cpu, v: u8)
    ensures
        spec_alu_sub_post(*old(cpu), *final(cpu), v, 0),
{
    let a = cpu.registers.a;
    let diff: u16 = (a as u16 + 0x200) - v as u16;
    cpu.registers.a = (diff % 256) as u8;
    cpu.registers.f.z = (diff % 256) == 0;
    cpu.registers.f.n = true;
    cpu.registers.f.h = a % 16 < v % 16;
    cpu.registers.f.c = (a as u16) < v as u16;
}

/// SBC: subtract `v` and the carry flag from A, half-borrow and borrow
/// computed over the whole composite difference.
pub fn sbc_val(cpu: &mut crate::cpu::Cpu, v: u8)
    ensures
        spec_alu_sub_post(
            *old(cpu),
            *final(cpu),
            v,
            if old(cpu).registers.f.c {
                1int
            } else {
                0int
            },
        ),
{
    let a = cpu.registers.a;
    let cin: u16 = if cpu.registers.f.c {
        1
    } else {
        0
    };
    let diff: u16 = (a as u16 + 0x200) - v as u16 - cin;
    cpu.registers.a = (diff % 256) as u8;
    cpu.registers.f.z = (diff % 256) == 0;
    cpu.registers.f.n = true;
    cpu.registers.f.h = (a as u16 % 16) < v as u16 % 16 + cin;
    cpu.registers.f.c = (a as u16) < v as u16 + cin;
}

/// CP: compare A with `v`, setting the flags of the subtraction and
/// leaving A unchanged.
pub fn cp_val(cpu: &mut crate::cpu::Cpu, v: u8)
    ensures
        spec_alu_cp_post(*old(cpu), *final(cpu), v),
{
    let a = cpu.registers.a;
    cpu.registers.f.z = a == v;
    cpu.registers.f.n = true;
    cpu.registers.f.h = a % 16 < v % 16;
    cpu.registers.f.c = a < v;
}

/// AND: bitwise-and `v` into A.
pub fn and_val(cpu: &mut crate::cpu::Cpu, v: u8)
    ensures
        spec_alu_bitwise_post(*old(cpu), *final(cpu), old(cpu).registers.a & v, false),
{
    let a = cpu.registers.a;
    cpu.registers.a = a & v;
    cpu.registers.f.z = (a & v) == 0;
    cpu.registers.f.n = false;
    cpu.registers.f.h = false;
    cpu.registers.f.c = false;
}

/// OR: bitwise-or `v` into A.
pub fn or_val(cpu: &mut crate::cpu::Cpu, v: u8)
    ensures
        spec_alu_bitwise_post(*old(cpu), *final(cpu), old(cpu).registers.a | v, false),
{
    let a = cpu.registers.a;
    cpu.registers.a = a | v;
    cpu.registers.f.z = (a | v) == 0;
    cpu.registers.f.n = false;
    cpu.registers.f.h = false;
    cpu.registers.f.c = false;
}

/// XOR: bitwise-exclusive-or `v` into A. H is set, as the opcode table
/// declares for this core.
pub fn xor_val(cpu: &mut crate::cpu::Cpu, v: u8)
    ensures
        spec_alu_bitwise_post(*old(cpu), *final(cpu), old(cpu).registers.a ^ v, true),
{
    let a = cpu.registers.a;
    cpu.registers.a = a ^ v;
    cpu.registers.f.z = (a ^ v) == 0;
    cpu.registers.f.n = false;
    cpu.registers.f.h = true;
    cpu.registers.f.c = false;
}

} // verus!
