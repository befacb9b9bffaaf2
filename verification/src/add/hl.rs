//! ADD with the HL pair as destination.

use vstd::prelude::*;
use crate::alu::{spec_add16_carry, spec_add16_half_carry, spec_wadd16, wadd16};
use crate::cpu::Cpu;
use crate::flags::FlagRegister;
use crate::registers::Registers;

verus! {

/// Everything ADD HL,v changes: HL takes the wrapped sum, N clears, H and
/// C come from bits 11 and 15, Z is kept, and nothing else moves.
pub open spec fn spec_add_hl_post(pre: Cpu, post: Cpu, v: u16) -> bool {
    post == (Cpu {
        registers: Registers {
            h: (spec_wadd16(pre.registers.spec_hl(), v) / 256) as u8,
            l: (spec_wadd16(pre.registers.spec_hl(), v) % 256) as u8,
            f: FlagRegister {
                z: pre.registers.f.z,
                n: false,
                h: spec_add16_half_carry(pre.registers.spec_hl(), v),
                c: spec_add16_carry(pre.registers.spec_hl(), v),
            },
            ..pre.registers
        },
        ..pre
    })
}

/// Add a word into HL with the word-addition flags.
fn add_hl_val(cpu: &mut Cpu, v: u16)
    ensures
        spec_add_hl_post(*old(cpu), *final(cpu), v),
{
    let hl = cpu.registers.hl();
    let sum = wadd16(hl, v);
    cpu.registers.put_hl(sum);
    cpu.registers.f.n = false;
    cpu.registers.f.h = hl % 0x1000 + v % 0x1000 > 0x0FFF;
    cpu.registers.f.c = (hl as u32) + (v as u32) > 0xFFFF;
}

/// ADD HL,BC: add BC to HL. The half-carry comes
/// from bit 11, the carry from bit 15; Z is kept.
/// - 0 H C
pub fn bc(cpu: &mut Cpu)
    ensures
        spec_add_hl_post(*old(cpu), *final(cpu), old(cpu).registers.spec_bc()),
{
    let v = cpu.registers.bc();
    add_hl_val(cpu, v);
}

/// ADD HL,DE: add DE to HL. The half-carry comes
/// from bit 11, the carry from bit 15; Z is kept.
/// - 0 H C
pub fn de(cpu: &mut Cpu)
    ensures
        spec_add_hl_post(*old(cpu), *final(cpu), old(cpu).registers.spec_de()),
{
    let v = cpu.registers.de();
    add_hl_val(cpu, v);
}

/// ADD HL,HL: add HL to HL. The half-carry comes
/// from bit 11, the carry from bit 15; Z is kept.
/// - 0 H C
pub fn hl(cpu: &mut Cpu)
    ensures
        spec_add_hl_post(*old(cpu), *final(cpu), old(cpu).registers.spec_hl()),
{
    let v = cpu.registers.hl();
    add_hl_val(cpu, v);
}

/// ADD HL,SP: add SP to HL.
/// - 0 H C
pub fn sp(cpu: &mut Cpu)
    ensures
        spec_add_hl_post(*old(cpu), *final(cpu), old(cpu).registers.sp),
{
    let v = cpu.registers.sp;
    add_hl_val(cpu, v);
}

} // verus!
