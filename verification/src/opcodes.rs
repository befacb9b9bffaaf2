//! The opcode table: for every instruction byte its length, its base
//! machine-cycle cost and whether it is defined on this CPU, plus the
//! latched operand representation. The dispatch itself lives in
//! `execute`, added at the bottom of this file.

use vstd::prelude::*;
use crate::alu::{
    spec_alu_add_post, spec_alu_bitwise_post, spec_alu_cp_post, spec_alu_sub_post,
    spec_sign_extend, spec_wadd16, spec_wadd8, spec_wsub16, spec_wsub8,
};
use crate::cpu::{Cpu, RunningMode};
use crate::flags::FlagRegister;
use crate::registers::Registers;

verus! {

/// The operand fetched after the opcode byte: one byte for two-byte
/// instructions, one little-endian word for three-byte instructions.
#[derive(Debug, Clone, Copy, PartialEq, Eq, Structural)]
pub enum Argument {
    Byte(u8),
    Word(u16),
}

/// One entry of the opcode table: whether the instruction byte is defined,
/// its size in bytes including the opcode, and its machine-cycle cost
/// before any branch-taken surcharge.
#[derive(Debug, Clone, Copy, PartialEq, Eq, Structural)]
pub struct OpCode {
    pub defined: bool,
    pub size: u8,
    pub cycles: u8,
}

/// Whether the instruction byte is defined on this CPU.
pub open spec fn spec_opcode_defined(op: u8) -> bool {
    !(op == 0xCB || op == 0xD3 || op == 0xDB || op == 0xDD || op == 0xE3 || op == 0xE4 || op
        == 0xEB || op == 0xEC || op == 0xED || op == 0xF4 || op == 0xFC || op == 0xFD)
}

/// The instruction length in bytes, opcode included.
pub open spec fn spec_opcode_size(op: u8) -> u8 {
    if op == 0x01 || op == 0x08 || op == 0x11 || op == 0x21 || op == 0x31 || op == 0xC2 || op
        == 0xC3 || op == 0xC4 || op == 0xCA || op == 0xCC || op == 0xCD || op == 0xD2 || op
        == 0xD4 || op == 0xDA || op == 0xDC || op == 0xEA || op == 0xFA {
        3
    } else if op == 0x06 || op == 0x0E || op == 0x10 || op == 0x16 || op == 0x18 || op == 0x1E
        || op == 0x20 || op == 0x26 || op == 0x28 || op == 0x2E || op == 0x30 || op == 0x36 || op
        == 0x38 || op == 0x3E || op == 0xC6 || op == 0xCE || op == 0xD6 || op == 0xDE || op
        == 0xE0 || op == 0xE6 || op == 0xE8 || op == 0xEE || op == 0xF0 || op == 0xF6 || op
        == 0xF8 || op == 0xFE {
        2
    } else {
        1
    }
}

/// The machine-cycle cost of the instruction when no branch is taken.
pub open spec fn spec_opcode_cycles(op: u8) -> u8 {
    if op == 0x08 {
        5
    } else if op == 0xCD {
        6
    } else if op == 0xC3 || op == 0xC5 || op == 0xC9 || op == 0xD5 || op == 0xE5 || op == 0xE8
        || op == 0xEA || op == 0xF5 || op == 0xFA || op == 0xC7 || op == 0xCF || op == 0xD7 || op
        == 0xDF || op == 0xE7 || op == 0xEF || op == 0xF7 || op == 0xFF {
        4
    } else if op == 0x01 || op == 0x11 || op == 0x21 || op == 0x31 || op == 0x18 || op == 0x34
        || op == 0x35 || op == 0x36 || op == 0xC1 || op == 0xD1 || op == 0xE1 || op == 0xF1 || op
        == 0xC2 || op == 0xC4 || op == 0xCA || op == 0xCC || op == 0xD2 || op == 0xD4 || op
        == 0xDA || op == 0xDC || op == 0xE0 || op == 0xF0 || op == 0xF8 {
        3
    } else if op == 0x02 || op == 0x03 || op == 0x06 || op == 0x09 || op == 0x0A || op == 0x0B
        || op == 0x0E || op == 0x12 || op == 0x13 || op == 0x16 || op == 0x19 || op == 0x1A || op
        == 0x1B || op == 0x1E || op == 0x20 || op == 0x22 || op == 0x23 || op == 0x26 || op
        == 0x28 || op == 0x29 || op == 0x2A || op == 0x2B || op == 0x2E || op == 0x30 || op
        == 0x32 || op == 0x33 || op == 0x38 || op == 0x39 || op == 0x3A || op == 0x3B || op
        == 0x3E || op == 0xC0 || op == 0xC6 || op == 0xC8 || op == 0xCE || op == 0xD0 || op
        == 0xD6 || op == 0xD8 || op == 0xDE || op == 0xE2 || op == 0xE6 || op == 0xEE || op
        == 0xF2 || op == 0xF6 || op == 0xF9 || op == 0xFE {
        2
    } else if 0x40 <= op <= 0x7F && op != 0x76 && (op % 8 == 6 || (0x70 <= op && op <= 0x77)) {
        2
    } else if 0x80 <= op <= 0xBF && op % 8 == 6 {
        2
    } else {
        1
    }
}

/// Whether the instruction never places PC itself: everything but the
/// jumps, calls, returns and restarts. For such an instruction `step`
/// always advances PC by the instruction size and charges exactly the
/// base cycles; only JR r8 still moves PC while leaving the advance in
/// place.
pub open spec fn spec_opcode_no_branch(op: u8) -> bool {
    !(op == 0x20 || op == 0x28 || op == 0x30 || op == 0x38 || op == 0xC0 || op == 0xC2 || op
        == 0xC3 || op == 0xC4 || op == 0xC7 || op == 0xC8 || op == 0xC9 || op == 0xCA || op
        == 0xCC || op == 0xCD || op == 0xCF || op == 0xD0 || op == 0xD2 || op == 0xD4 || op
        == 0xD7 || op == 0xD8 || op == 0xD9 || op == 0xDA || op == 0xDC || op == 0xDF || op
        == 0xE7 || op == 0xE9 || op == 0xEF || op == 0xF7 || op == 0xFF)
}

/// The table entry of the instruction byte.
pub open spec fn spec_opcode(op: u8) -> OpCode {
    OpCode {
        defined: spec_opcode_defined(op),
        size: spec_opcode_size(op),
        cycles: spec_opcode_cycles(op),
    }
}

/// Look the instruction byte up in the opcode table.
pub fn opcode_info(op: u8) -> (r: OpCode)
    ensures
        r == spec_opcode(op),
{
    let defined = !(op == 0xCB || op == 0xD3 || op == 0xDB || op == 0xDD || op == 0xE3 || op
        == 0xE4 || op == 0xEB || op == 0xEC || op == 0xED || op == 0xF4 || op == 0xFC || op
        == 0xFD);
    let size: u8 = if op == 0x01 || op == 0x08 || op == 0x11 || op == 0x21 || op == 0x31 || op
        == 0xC2 || op == 0xC3 || op == 0xC4 || op == 0xCA || op == 0xCC || op == 0xCD || op
        == 0xD2 || op == 0xD4 || op == 0xDA || op == 0xDC || op == 0xEA || op == 0xFA {
        3
    } else if op == 0x06 || op == 0x0E || op == 0x10 || op == 0x16 || op == 0x18 || op == 0x1E
        || op == 0x20 || op == 0x26 || op == 0x28 || op == 0x2E || op == 0x30 || op == 0x36 || op
        == 0x38 || op == 0x3E || op == 0xC6 || op == 0xCE || op == 0xD6 || op == 0xDE || op
        == 0xE0 || op == 0xE6 || op == 0xE8 || op == 0xEE || op == 0xF0 || op == 0xF6 || op
        == 0xF8 || op == 0xFE {
        2
    } else {
        1
    };
    let cycles: u8 = if op == 0x08 {
        5
    } else if op == 0xCD {
        6
    } else if op == 0xC3 || op == 0xC5 || op == 0xC9 || op == 0xD5 || op == 0xE5 || op == 0xE8
        || op == 0xEA || op == 0xF5 || op == 0xFA || op == 0xC7 || op == 0xCF || op == 0xD7 || op
        == 0xDF || op == 0xE7 || op == 0xEF || op == 0xF7 || op == 0xFF {
        4
    } else if op == 0x01 || op == 0x11 || op == 0x21 || op == 0x31 || op == 0x18 || op == 0x34
        || op == 0x35 || op == 0x36 || op == 0xC1 || op == 0xD1 || op == 0xE1 || op == 0xF1 || op
        == 0xC2 || op == 0xC4 || op == 0xCA || op == 0xCC || op == 0xD2 || op == 0xD4 || op
        == 0xDA || op == 0xDC || op == 0xE0 || op == 0xF0 || op == 0xF8 {
        3
    } else if op == 0x02 || op == 0x03 || op == 0x06 || op == 0x09 || op == 0x0A || op == 0x0B
        || op == 0x0E || op == 0x12 || op == 0x13 || op == 0x16 || op == 0x19 || op == 0x1A || op
        == 0x1B || op == 0x1E || op == 0x20 || op == 0x22 || op == 0x23 || op == 0x26 || op
        == 0x28 || op == 0x29 || op == 0x2A || op == 0x2B || op == 0x2E || op == 0x30 || op
        == 0x32 || op == 0x33 || op == 0x38 || op == 0x39 || op == 0x3A || op == 0x3B || op
        == 0x3E || op == 0xC0 || op == 0xC6 || op == 0xC8 || op == 0xCE || op == 0xD0 || op
        == 0xD6 || op == 0xD8 || op == 0xDE || op == 0xE2 || op == 0xE6 || op == 0xEE || op
        == 0xF2 || op == 0xF6 || op == 0xF9 || op == 0xFE {
        2
    } else if op >= 0x40 && op <= 0x7F && op != 0x76 && (op % 8 == 6 || (op >= 0x70 && op
        <= 0x77)) {
        2
    } else if op >= 0x80 && op <= 0xBF && op % 8 == 6 {
        2
    } else {
        1
    };
    OpCode { defined, size, cycles }
}

/// Sign-extend a byte to sixteen bits.
pub fn sign_extend(byte: u8) -> (r: u16)
    ensures
        r == crate::alu::spec_sign_extend(byte),
{
    if byte >= 0x80 {
        0xFF00 + byte as u16
    } else {
        byte as u16
    }
}

/// The per-instruction semantics of the instruction bytes 0x00..=0x3F: how the
/// state after executing the defined instruction `op` relates to the state
/// before it. Undefined bytes are never executed and get no meaning here.
#[verifier::opaque]
pub open spec fn spec_instruction_post_q0(pre: Cpu, post: Cpu, op: u8) -> bool {
    if op == 0x00 {
        post == pre
    } else if op == 0x01 {
        post == (Cpu { registers: (Registers { b: (pre.spec_arg_word() / 256) as u8, c: (pre.spec_arg_word() % 256) as u8, ..pre.registers }), ..pre })
    } else if op == 0x02 {
        Cpu::spec_store_post(pre, post, pre.registers.a, pre.registers.spec_bc())
    } else if op == 0x03 {
        post == (Cpu { registers: (Registers { b: (spec_wadd16(pre.registers.spec_bc(), 1) / 256) as u8, c: (spec_wadd16(pre.registers.spec_bc(), 1) % 256) as u8, ..pre.registers }), ..pre })
    } else if op == 0x04 {
        post == (Cpu { registers: (Registers { b: spec_wadd8(pre.registers.b, 1), f: crate::inc::spec_inc8_flags(pre.registers.f, pre.registers.b), ..pre.registers }), ..pre })
    } else if op == 0x05 {
        post == (Cpu { registers: (Registers { b: spec_wsub8(pre.registers.b, 1), f: crate::dec::spec_dec8_flags(pre.registers.f, pre.registers.b), ..pre.registers }), ..pre })
    } else if op == 0x06 {
        post == (Cpu { registers: (Registers { b: pre.spec_arg_byte(), ..pre.registers }), ..pre })
    } else if op == 0x07 {
        crate::rotate::spec_rotate_post(pre, post, ((pre.registers.a % 128) * 2 + pre.registers.a / 128) as u8, pre.registers.a >= 128)
    } else if op == 0x08 {
        crate::ld::addr::spec_store_sp_post(pre, post)
    } else if op == 0x09 {
        crate::add::hl::spec_add_hl_post(pre, post, pre.registers.spec_bc())
    } else if op == 0x0A {
        post == (Cpu { registers: (Registers { a: pre.memory.spec_read(pre.registers.spec_bc()), ..pre.registers }), ..pre })
    } else if op == 0x0B {
        post == (Cpu { registers: (Registers { b: (spec_wsub16(pre.registers.spec_bc(), 1) / 256) as u8, c: (spec_wsub16(pre.registers.spec_bc(), 1) % 256) as u8, ..pre.registers }), ..pre })
    } else if op == 0x0C {
        post == (Cpu { registers: (Registers { c: spec_wadd8(pre.registers.c, 1), f: crate::inc::spec_inc8_flags(pre.registers.f, pre.registers.c), ..pre.registers }), ..pre })
    } else if op == 0x0D {
        post == (Cpu { registers: (Registers { c: spec_wsub8(pre.registers.c, 1), f: crate::dec::spec_dec8_flags(pre.registers.f, pre.registers.c), ..pre.registers }), ..pre })
    } else if op == 0x0E {
        post == (Cpu { registers: (Registers { c: pre.spec_arg_byte(), ..pre.registers }), ..pre })
    } else if op == 0x0F {
        crate::rotate::spec_rotate_post(pre, post, (pre.registers.a / 2 + (pre.registers.a % 2) * 128) as u8, pre.registers.a % 2 == 1)
    } else if op == 0x10 {
        post == (Cpu { mode: RunningMode::Stop, ..pre })
    } else if op == 0x11 {
        post == (Cpu { registers: (Registers { d: (pre.spec_arg_word() / 256) as u8, e: (pre.spec_arg_word() % 256) as u8, ..pre.registers }), ..pre })
    } else if op == 0x12 {
        Cpu::spec_store_post(pre, post, pre.registers.a, pre.registers.spec_de())
    } else if op == 0x13 {
        post == (Cpu { registers: (Registers { d: (spec_wadd16(pre.registers.spec_de(), 1) / 256) as u8, e: (spec_wadd16(pre.registers.spec_de(), 1) % 256) as u8, ..pre.registers }), ..pre })
    } else if op == 0x14 {
        post == (Cpu { registers: (Registers { d: spec_wadd8(pre.registers.d, 1), f: crate::inc::spec_inc8_flags(pre.registers.f, pre.registers.d), ..pre.registers }), ..pre })
    } else if op == 0x15 {
        post == (Cpu { registers: (Registers { d: spec_wsub8(pre.registers.d, 1), f: crate::dec::spec_dec8_flags(pre.registers.f, pre.registers.d), ..pre.registers }), ..pre })
    } else if op == 0x16 {
        post == (Cpu { registers: (Registers { d: pre.spec_arg_byte(), ..pre.registers }), ..pre })
    } else if op == 0x17 {
        crate::rotate::spec_rotate_post(pre, post, ((pre.registers.a % 128) * 2 + pre.spec_carry_in()) as u8, pre.registers.a >= 128)
    } else if op == 0x18 {
        post == (Cpu { registers: (Registers { pc: spec_wadd16(pre.registers.pc, spec_sign_extend(pre.spec_arg_byte())), ..pre.registers }), ..pre })
    } else if op == 0x19 {
        crate::add::hl::spec_add_hl_post(pre, post, pre.registers.spec_de())
    } else if op == 0x1A {
        post == (Cpu { registers: (Registers { a: pre.memory.spec_read(pre.registers.spec_de()), ..pre.registers }), ..pre })
    } else if op == 0x1B {
        post == (Cpu { registers: (Registers { d: (spec_wsub16(pre.registers.spec_de(), 1) / 256) as u8, e: (spec_wsub16(pre.registers.spec_de(), 1) % 256) as u8, ..pre.registers }), ..pre })
    } else if op == 0x1C {
        post == (Cpu { registers: (Registers { e: spec_wadd8(pre.registers.e, 1), f: crate::inc::spec_inc8_flags(pre.registers.f, pre.registers.e), ..pre.registers }), ..pre })
    } else if op == 0x1D {
        post == (Cpu { registers: (Registers { e: spec_wsub8(pre.registers.e, 1), f: crate::dec::spec_dec8_flags(pre.registers.f, pre.registers.e), ..pre.registers }), ..pre })
    } else if op == 0x1E {
        post == (Cpu { registers: (Registers { e: pre.spec_arg_byte(), ..pre.registers }), ..pre })
    } else if op == 0x1F {
        crate::rotate::spec_rotate_post(pre, post, (pre.registers.a / 2 + 128 * pre.spec_carry_in()) as u8, pre.registers.a % 2 == 1)
    } else if op == 0x20 {
        if !pre.registers.f.z { crate::jp::spec_jump_post(pre, post, spec_wadd16(pre.registers.pc, spec_sign_extend(pre.spec_arg_byte())), 1) } else { post == pre }
    } else if op == 0x21 {
        post == (Cpu { registers: (Registers { h: (pre.spec_arg_word() / 256) as u8, l: (pre.spec_arg_word() % 256) as u8, ..pre.registers }), ..pre })
    } else if op == 0x22 {
        crate::ld::hl_ind_add::spec_store_hl_inc_post(pre, post)
    } else if op == 0x23 {
        post == (Cpu { registers: (Registers { h: (spec_wadd16(pre.registers.spec_hl(), 1) / 256) as u8, l: (spec_wadd16(pre.registers.spec_hl(), 1) % 256) as u8, ..pre.registers }), ..pre })
    } else if op == 0x24 {
        post == (Cpu { registers: (Registers { h: spec_wadd8(pre.registers.h, 1), f: crate::inc::spec_inc8_flags(pre.registers.f, pre.registers.h), ..pre.registers }), ..pre })
    } else if op == 0x25 {
        post == (Cpu { registers: (Registers { h: spec_wsub8(pre.registers.h, 1), f: crate::dec::spec_dec8_flags(pre.registers.f, pre.registers.h), ..pre.registers }), ..pre })
    } else if op == 0x26 {
        post == (Cpu { registers: (Registers { h: pre.spec_arg_byte(), ..pre.registers }), ..pre })
    } else if op == 0x27 {
        crate::logic::spec_daa_post(pre, post)
    } else if op == 0x28 {
        if pre.registers.f.z { crate::jp::spec_jump_post(pre, post, spec_wadd16(pre.registers.pc, spec_sign_extend(pre.spec_arg_byte())), 1) } else { post == pre }
    } else if op == 0x29 {
        crate::add::hl::spec_add_hl_post(pre, post, pre.registers.spec_hl())
    } else if op == 0x2A {
        post == (Cpu { registers: (Registers { a: pre.memory.spec_read(pre.registers.spec_hl()), h: (spec_wadd16(pre.registers.spec_hl(), 1) / 256) as u8, l: (spec_wadd16(pre.registers.spec_hl(), 1) % 256) as u8, ..pre.registers }), ..pre })
    } else if op == 0x2B {
        post == (Cpu { registers: (Registers { h: (spec_wsub16(pre.registers.spec_hl(), 1) / 256) as u8, l: (spec_wsub16(pre.registers.spec_hl(), 1) % 256) as u8, ..pre.registers }), ..pre })
    } else if op == 0x2C {
        post == (Cpu { registers: (Registers { l: spec_wadd8(pre.registers.l, 1), f: crate::inc::spec_inc8_flags(pre.registers.f, pre.registers.l), ..pre.registers }), ..pre })
    } else if op == 0x2D {
        post == (Cpu { registers: (Registers { l: spec_wsub8(pre.registers.l, 1), f: crate::dec::spec_dec8_flags(pre.registers.f, pre.registers.l), ..pre.registers }), ..pre })
    } else if op == 0x2E {
        post == (Cpu { registers: (Registers { l: pre.spec_arg_byte(), ..pre.registers }), ..pre })
    } else if op == 0x2F {
        post == (Cpu { registers: (Registers { a: (255 - pre.registers.a) as u8, f: (FlagRegister { n: true, h: true, ..pre.registers.f }), ..pre.registers }), ..pre })
    } else if op == 0x30 {
        if !pre.registers.f.c { crate::jp::spec_jump_post(pre, post, spec_wadd16(pre.registers.pc, spec_sign_extend(pre.spec_arg_byte())), 1) } else { post == pre }
    } else if op == 0x31 {
        post == (Cpu { registers: (Registers { sp: pre.spec_arg_word(), ..pre.registers }), ..pre })
    } else if op == 0x32 {
        crate::ld::hl_ind_sub::spec_store_hl_dec_post(pre, post)
    } else if op == 0x33 {
        post == (Cpu { registers: (Registers { sp: spec_wadd16(pre.registers.sp, 1), ..pre.registers }), ..pre })
    } else if op == 0x34 {
        crate::inc::spec_inc_hl_ind_post(pre, post)
    } else if op == 0x35 {
        crate::dec::spec_dec_hl_ind_post(pre, post)
    } else if op == 0x36 {
        Cpu::spec_store_post(pre, post, pre.spec_arg_byte(), pre.registers.spec_hl())
    } else if op == 0x37 {
        post == (Cpu { registers: (Registers { f: (FlagRegister { z: pre.registers.f.z, n: false, h: false, c: true }), ..pre.registers }), ..pre })
    } else if op == 0x38 {
        if pre.registers.f.c { crate::jp::spec_jump_post(pre, post, spec_wadd16(pre.registers.pc, spec_sign_extend(pre.spec_arg_byte())), 1) } else { post == pre }
    } else if op == 0x39 {
        crate::add::hl::spec_add_hl_post(pre, post, pre.registers.sp)
    } else if op == 0x3A {
        post == (Cpu { registers: (Registers { a: pre.memory.spec_read(pre.registers.spec_hl()), h: (spec_wsub16(pre.registers.spec_hl(), 1) / 256) as u8, l: (spec_wsub16(pre.registers.spec_hl(), 1) % 256) as u8, ..pre.registers }), ..pre })
    } else if op == 0x3B {
        post == (Cpu { registers: (Registers { sp: spec_wsub16(pre.registers.sp, 1), ..pre.registers }), ..pre })
    } else if op == 0x3C {
        post == (Cpu { registers: (Registers { a: spec_wadd8(pre.registers.a, 1), f: crate::inc::spec_inc8_flags(pre.registers.f, pre.registers.a), ..pre.registers }), ..pre })
    } else if op == 0x3D {
        post == (Cpu { registers: (Registers { a: spec_wsub8(pre.registers.a, 1), f: crate::dec::spec_dec8_flags(pre.registers.f, pre.registers.a), ..pre.registers }), ..pre })
    } else if op == 0x3E {
        post == (Cpu { registers: (Registers { a: pre.spec_arg_byte(), ..pre.registers }), ..pre })
    } else if op == 0x3F {
        post == (Cpu { registers: (Registers { f: (FlagRegister { z: pre.registers.f.z, n: false, h: false, c: !pre.registers.f.c }), ..pre.registers }), ..pre })
    } else {
        true
    }
}

/// The per-instruction semantics of the instruction bytes 0x40..=0x7F: how the
/// state after executing the defined instruction `op` relates to the state
/// before it. Undefined bytes are never executed and get no meaning here.
#[verifier::opaque]
pub open spec fn spec_instruction_post_q1(pre: Cpu, post: Cpu, op: u8) -> bool {
    if op == 0x40 {
        post == (Cpu { registers: (Registers { b: pre.registers.b, ..pre.registers }), ..pre })
    } else if op == 0x41 {
        post == (Cpu { registers: (Registers { b: pre.registers.c, ..pre.registers }), ..pre })
    } else if op == 0x42 {
        post == (Cpu { registers: (Registers { b: pre.registers.d, ..pre.registers }), ..pre })
    } else if op == 0x43 {
        post == (Cpu { registers: (Registers { b: pre.registers.e, ..pre.registers }), ..pre })
    } else if op == 0x44 {
        post == (Cpu { registers: (Registers { b: pre.registers.h, ..pre.registers }), ..pre })
    } else if op == 0x45 {
        post == (Cpu { registers: (Registers { b: pre.registers.l, ..pre.registers }), ..pre })
    } else if op == 0x46 {
        post == (Cpu { registers: (Registers { b: pre.memory.spec_read(pre.registers.spec_hl()), ..pre.registers }), ..pre })
    } else if op == 0x47 {
        post == (Cpu { registers: (Registers { b: pre.registers.a, ..pre.registers }), ..pre })
    } else if op == 0x48 {
        post == (Cpu { registers: (Registers { c: pre.registers.b, ..pre.registers }), ..pre })
    } else if op == 0x49 {
        post == (Cpu { registers: (Registers { c: pre.registers.c, ..pre.registers }), ..pre })
    } else if op == 0x4A {
        post == (Cpu { registers: (Registers { c: pre.registers.d, ..pre.registers }), ..pre })
    } else if op == 0x4B {
        post == (Cpu { registers: (Registers { c: pre.registers.e, ..pre.registers }), ..pre })
    } else if op == 0x4C {
        post == (Cpu { registers: (Registers { c: pre.registers.h, ..pre.registers }), ..pre })
    } else if op == 0x4D {
        post == (Cpu { registers: (Registers { c: pre.registers.l, ..pre.registers }), ..pre })
    } else if op == 0x4E {
        post == (Cpu { registers: (Registers { c: pre.memory.spec_read(pre.registers.spec_hl()), ..pre.registers }), ..pre })
    } else if op == 0x4F {
        post == (Cpu { registers: (Registers { c: pre.registers.a, ..pre.registers }), ..pre })
    } else if op == 0x50 {
        post == (Cpu { registers: (Registers { d: pre.registers.b, ..pre.registers }), ..pre })
    } else if op == 0x51 {
        post == (Cpu { registers: (Registers { d: pre.registers.c, ..pre.registers }), ..pre })
    } else if op == 0x52 {
        post == (Cpu { registers: (Registers { d: pre.registers.d, ..pre.registers }), ..pre })
    } else if op == 0x53 {
        post == (Cpu { registers: (Registers { d: pre.registers.e, ..pre.registers }), ..pre })
    } else if op == 0x54 {
        post == (Cpu { registers: (Registers { d: pre.registers.h, ..pre.registers }), ..pre })
    } else if op == 0x55 {
        post == (Cpu { registers: (Registers { d: pre.registers.l, ..pre.registers }), ..pre })
    } else if op == 0x56 {
        post == (Cpu { registers: (Registers { d: pre.memory.spec_read(pre.registers.spec_hl()), ..pre.registers }), ..pre })
    } else if op == 0x57 {
        post == (Cpu { registers: (Registers { d: pre.registers.a, ..pre.registers }), ..pre })
    } else if op == 0x58 {
        post == (Cpu { registers: (Registers { e: pre.registers.b, ..pre.registers }), ..pre })
    } else if op == 0x59 {
        post == (Cpu { registers: (Registers { e: pre.registers.c, ..pre.registers }), ..pre })
    } else if op == 0x5A {
        post == (Cpu { registers: (Registers { e: pre.registers.d, ..pre.registers }), ..pre })
    } else if op == 0x5B {
        post == (Cpu { registers: (Registers { e: pre.registers.e, ..pre.registers }), ..pre })
    } else if op == 0x5C {
        post == (Cpu { registers: (Registers { e: pre.registers.h, ..pre.registers }), ..pre })
    } else if op == 0x5D {
        post == (Cpu { registers: (Registers { e: pre.registers.l, ..pre.registers }), ..pre })
    } else if op == 0x5E {
        post == (Cpu { registers: (Registers { e: pre.memory.spec_read(pre.registers.spec_hl()), ..pre.registers }), ..pre })
    } else if op == 0x5F {
        post == (Cpu { registers: (Registers { e: pre.registers.a, ..pre.registers }), ..pre })
    } else if op == 0x60 {
        post == (Cpu { registers: (Registers { h: pre.registers.b, ..pre.registers }), ..pre })
    } else if op == 0x61 {
        post == (Cpu { registers: (Registers { h: pre.registers.c, ..pre.registers }), ..pre })
    } else if op == 0x62 {
        post == (Cpu { registers: (Registers { h: pre.registers.d, ..pre.registers }), ..pre })
    } else if op == 0x63 {
        post == (Cpu { registers: (Registers { h: pre.registers.e, ..pre.registers }), ..pre })
    } else if op == 0x64 {
        post == (Cpu { registers: (Registers { h: pre.registers.h, ..pre.registers }), ..pre })
    } else if op == 0x65 {
        post == (Cpu { registers: (Registers { h: pre.registers.l, ..pre.registers }), ..pre })
    } else if op == 0x66 {
        post == (Cpu { registers: (Registers { h: pre.memory.spec_read(pre.registers.spec_hl()), ..pre.registers }), ..pre })
    } else if op == 0x67 {
        post == (Cpu { registers: (Registers { h: pre.registers.a, ..pre.registers }), ..pre })
    } else if op == 0x68 {
        post == (Cpu { registers: (Registers { l: pre.registers.b, ..pre.registers }), ..pre })
    } else if op == 0x69 {
        post == (Cpu { registers: (Registers { l: pre.registers.c, ..pre.registers }), ..pre })
    } else if op == 0x6A {
        post == (Cpu { registers: (Registers { l: pre.registers.d, ..pre.registers }), ..pre })
    } else if op == 0x6B {
        post == (Cpu { registers: (Registers { l: pre.registers.e, ..pre.registers }), ..pre })
    } else if op == 0x6C {
        post == (Cpu { registers: (Registers { l: pre.registers.h, ..pre.registers }), ..pre })
    } else if op == 0x6D {
        post == (Cpu { registers: (Registers { l: pre.registers.l, ..pre.registers }), ..pre })
    } else if op == 0x6E {
        post == (Cpu { registers: (Registers { l: pre.memory.spec_read(pre.registers.spec_hl()), ..pre.registers }), ..pre })
    } else if op == 0x6F {
        post == (Cpu { registers: (Registers { l: pre.registers.a, ..pre.registers }), ..pre })
    } else if op == 0x70 {
        Cpu::spec_store_post(pre, post, pre.registers.b, pre.registers.spec_hl())
    } else if op == 0x71 {
        Cpu::spec_store_post(pre, post, pre.registers.c, pre.registers.spec_hl())
    } else if op == 0x72 {
        Cpu::spec_store_post(pre, post, pre.registers.d, pre.registers.spec_hl())
    } else if op == 0x73 {
        Cpu::spec_store_post(pre, post, pre.registers.e, pre.registers.spec_hl())
    } else if op == 0x74 {
        Cpu::spec_store_post(pre, post, pre.registers.h, pre.registers.spec_hl())
    } else if op == 0x75 {
        Cpu::spec_store_post(pre, post, pre.registers.l, pre.registers.spec_hl())
    } else if op == 0x76 {
        post == (Cpu { mode: crate::interrupt::spec_halt_mode(pre), ..pre })
    } else if op == 0x77 {
        Cpu::spec_store_post(pre, post, pre.registers.a, pre.registers.spec_hl())
    } else if op == 0x78 {
        post == (Cpu { registers: (Registers { a: pre.registers.b, ..pre.registers }), ..pre })
    } else if op == 0x79 {
        post == (Cpu { registers: (Registers { a: pre.registers.c, ..pre.registers }), ..pre })
    } else if op == 0x7A {
        post == (Cpu { registers: (Registers { a: pre.registers.d, ..pre.registers }), ..pre })
    } else if op == 0x7B {
        post == (Cpu { registers: (Registers { a: pre.registers.e, ..pre.registers }), ..pre })
    } else if op == 0x7C {
        post == (Cpu { registers: (Registers { a: pre.registers.h, ..pre.registers }), ..pre })
    } else if op == 0x7D {
        post == (Cpu { registers: (Registers { a: pre.registers.l, ..pre.registers }), ..pre })
    } else if op == 0x7E {
        post == (Cpu { registers: (Registers { a: pre.memory.spec_read(pre.registers.spec_hl()), ..pre.registers }), ..pre })
    } else if op == 0x7F {
        post == (Cpu { registers: (Registers { a: pre.registers.a, ..pre.registers }), ..pre })
    } else {
        true
    }
}

/// The per-instruction semantics of the instruction bytes 0x80..=0xBF: how the
/// state after executing the defined instruction `op` relates to the state
/// before it. Undefined bytes are never executed and get no meaning here.
#[verifier::opaque]
pub open spec fn spec_instruction_post_q2(pre: Cpu, post: Cpu, op: u8) -> bool {
    if op == 0x80 {
        spec_alu_add_post(pre, post, pre.registers.b, 0)
    } else if op == 0x81 {
        spec_alu_add_post(pre, post, pre.registers.c, 0)
    } else if op == 0x82 {
        spec_alu_add_post(pre, post, pre.registers.d, 0)
    } else if op == 0x83 {
        spec_alu_add_post(pre, post, pre.registers.e, 0)
    } else if op == 0x84 {
        spec_alu_add_post(pre, post, pre.registers.h, 0)
    } else if op == 0x85 {
        spec_alu_add_post(pre, post, pre.registers.l, 0)
    } else if op == 0x86 {
        spec_alu_add_post(pre, post, pre.memory.spec_read(pre.registers.spec_hl()), 0)
    } else if op == 0x87 {
        spec_alu_add_post(pre, post, pre.registers.a, 0)
    } else if op == 0x88 {
        spec_alu_add_post(pre, post, pre.registers.b, pre.spec_carry_in())
    } else if op == 0x89 {
        spec_alu_add_post(pre, post, pre.registers.c, pre.spec_carry_in())
    } else if op == 0x8A {
        spec_alu_add_post(pre, post, pre.registers.d, pre.spec_carry_in())
    } else if op == 0x8B {
        spec_alu_add_post(pre, post, pre.registers.e, pre.spec_carry_in())
    } else if op == 0x8C {
        spec_alu_add_post(pre, post, pre.registers.h, pre.spec_carry_in())
    } else if op == 0x8D {
        spec_alu_add_post(pre, post, pre.registers.l, pre.spec_carry_in())
    } else if op == 0x8E {
        spec_alu_add_post(pre, post, pre.memory.spec_read(pre.registers.spec_hl()), pre.spec_carry_in())
    } else if op == 0x8F {
        spec_alu_add_post(pre, post, pre.registers.a, pre.spec_carry_in())
    } else if op == 0x90 {
        spec_alu_sub_post(pre, post, pre.registers.b, 0)
    } else if op == 0x91 {
        spec_alu_sub_post(pre, post, pre.registers.c, 0)
    } else if op == 0x92 {
        spec_alu_sub_post(pre, post, pre.registers.d, 0)
    } else if op == 0x93 {
        spec_alu_sub_post(pre, post, pre.registers.e, 0)
    } else if op == 0x94 {
        spec_alu_sub_post(pre, post, pre.registers.h, 0)
    } else if op == 0x95 {
        spec_alu_sub_post(pre, post, pre.registers.l, 0)
    } else if op == 0x96 {
        spec_alu_sub_post(pre, post, pre.memory.spec_read(pre.registers.spec_hl()), 0)
    } else if op == 0x97 {
        spec_alu_sub_post(pre, post, pre.registers.a, 0)
    } else if op == 0x98 {
        spec_alu_sub_post(pre, post, pre.registers.b, pre.spec_carry_in())
    } else if op == 0x99 {
        spec_alu_sub_post(pre, post, pre.registers.c, pre.spec_carry_in())
    } else if op == 0x9A {
        spec_alu_sub_post(pre, post, pre.registers.d, pre.spec_carry_in())
    } else if op == 0x9B {
        spec_alu_sub_post(pre, post, pre.registers.e, pre.spec_carry_in())
    } else if op == 0x9C {
        spec_alu_sub_post(pre, post, pre.registers.h, pre.spec_carry_in())
    } else if op == 0x9D {
        spec_alu_sub_post(pre, post, pre.registers.l, pre.spec_carry_in())
    } else if op == 0x9E {
        spec_alu_sub_post(pre, post, pre.memory.spec_read(pre.registers.spec_hl()), pre.spec_carry_in())
    } else if op == 0x9F {
        spec_alu_sub_post(pre, post, pre.registers.a, pre.spec_carry_in())
    } else if op == 0xA0 {
        spec_alu_bitwise_post(pre, post, pre.registers.a & pre.registers.b, false)
    } else if op == 0xA1 {
        spec_alu_bitwise_post(pre, post, pre.registers.a & pre.registers.c, false)
    } else if op == 0xA2 {
        spec_alu_bitwise_post(pre, post, pre.registers.a & pre.registers.d, false)
    } else if op == 0xA3 {
        spec_alu_bitwise_post(pre, post, pre.registers.a & pre.registers.e, false)
    } else if op == 0xA4 {
        spec_alu_bitwise_post(pre, post, pre.registers.a & pre.registers.h, false)
    } else if op == 0xA5 {
        spec_alu_bitwise_post(pre, post, pre.registers.a & pre.registers.l, false)
    } else if op == 0xA6 {
        spec_alu_bitwise_post(pre, post, pre.registers.a & pre.memory.spec_read(pre.registers.spec_hl()), false)
    } else if op == 0xA7 {
        spec_alu_bitwise_post(pre, post, pre.registers.a & pre.registers.a, false)
    } else if op == 0xA8 {
        spec_alu_bitwise_post(pre, post, pre.registers.a ^ pre.registers.b, true)
    } else if op == 0xA9 {
        spec_alu_bitwise_post(pre, post, pre.registers.a ^ pre.registers.c, true)
    } else if op == 0xAA {
        spec_alu_bitwise_post(pre, post, pre.registers.a ^ pre.registers.d, true)
    } else if op == 0xAB {
        spec_alu_bitwise_post(pre, post, pre.registers.a ^ pre.registers.e, true)
    } else if op == 0xAC {
        spec_alu_bitwise_post(pre, post, pre.registers.a ^ pre.registers.h, true)
    } else if op == 0xAD {
        spec_alu_bitwise_post(pre, post, pre.registers.a ^ pre.registers.l, true)
    } else if op == 0xAE {
        spec_alu_bitwise_post(pre, post, pre.registers.a ^ pre.memory.spec_read(pre.registers.spec_hl()), true)
    } else if op == 0xAF {
        spec_alu_bitwise_post(pre, post, pre.registers.a ^ pre.registers.a, true)
    } else if op == 0xB0 {
        spec_alu_bitwise_post(pre, post, pre.registers.a | pre.registers.b, false)
    } else if op == 0xB1 {
        spec_alu_bitwise_post(pre, post, pre.registers.a | pre.registers.c, false)
    } else if op == 0xB2 {
        spec_alu_bitwise_post(pre, post, pre.registers.a | pre.registers.d, false)
    } else if op == 0xB3 {
        spec_alu_bitwise_post(pre, post, pre.registers.a | pre.registers.e, false)
    } else if op == 0xB4 {
        spec_alu_bitwise_post(pre, post, pre.registers.a | pre.registers.h, false)
    } else if op == 0xB5 {
        spec_alu_bitwise_post(pre, post, pre.registers.a | pre.registers.l, false)
    } else if op == 0xB6 {
        spec_alu_bitwise_post(pre, post, pre.registers.a | pre.memory.spec_read(pre.registers.spec_hl()), false)
    } else if op == 0xB7 {
        spec_alu_bitwise_post(pre, post, pre.registers.a | pre.registers.a, false)
    } else if op == 0xB8 {
        spec_alu_cp_post(pre, post, pre.registers.b)
    } else if op == 0xB9 {
        spec_alu_cp_post(pre, post, pre.registers.c)
    } else if op == 0xBA {
        spec_alu_cp_post(pre, post, pre.registers.d)
    } else if op == 0xBB {
        spec_alu_cp_post(pre, post, pre.registers.e)
    } else if op == 0xBC {
        spec_alu_cp_post(pre, post, pre.registers.h)
    } else if op == 0xBD {
        spec_alu_cp_post(pre, post, pre.registers.l)
    } else if op == 0xBE {
        spec_alu_cp_post(pre, post, pre.memory.spec_read(pre.registers.spec_hl()))
    } else if op == 0xBF {
        spec_alu_cp_post(pre, post, pre.registers.a)
    } else {
        true
    }
}

/// The per-instruction semantics of the instruction bytes 0xC0..=0xFF: how the
/// state after executing the defined instruction `op` relates to the state
/// before it. Undefined bytes are never executed and get no meaning here.
#[verifier::opaque]
pub open spec fn spec_instruction_post_q3(pre: Cpu, post: Cpu, op: u8) -> bool {
    if op == 0xC0 {
        if !pre.registers.f.z { crate::ret::spec_ret_post(pre, post, 3) } else { post == pre }
    } else if op == 0xC1 {
        post == (Cpu { registers: (Registers { b: (pre.spec_pop_value() / 256) as u8, c: (pre.spec_pop_value() % 256) as u8, sp: spec_wadd16(pre.registers.sp, 2), ..pre.registers }), ..pre })
    } else if op == 0xC2 {
        if !pre.registers.f.z { crate::jp::spec_jump_post(pre, post, pre.spec_arg_word(), 1) } else { post == pre }
    } else if op == 0xC3 {
        crate::jp::spec_jump_post(pre, post, pre.spec_arg_word(), 0)
    } else if op == 0xC4 {
        if !pre.registers.f.z { crate::call::spec_call_post(pre, post, 3) } else { post == pre }
    } else if op == 0xC5 {
        Cpu::spec_push_post(pre, post, pre.registers.spec_bc())
    } else if op == 0xC6 {
        spec_alu_add_post(pre, post, pre.spec_arg_byte(), 0)
    } else if op == 0xC7 {
        crate::rst::spec_rst_post(pre, post, 0x00)
    } else if op == 0xC8 {
        if pre.registers.f.z { crate::ret::spec_ret_post(pre, post, 3) } else { post == pre }
    } else if op == 0xC9 {
        crate::ret::spec_ret_post(pre, post, 0)
    } else if op == 0xCA {
        if pre.registers.f.z { crate::jp::spec_jump_post(pre, post, pre.spec_arg_word(), 1) } else { post == pre }
    } else if op == 0xCC {
        if pre.registers.f.z { crate::call::spec_call_post(pre, post, 3) } else { post == pre }
    } else if op == 0xCD {
        crate::call::spec_call_post(pre, post, 0)
    } else if op == 0xCE {
        spec_alu_add_post(pre, post, pre.spec_arg_byte(), pre.spec_carry_in())
    } else if op == 0xCF {
        crate::rst::spec_rst_post(pre, post, 0x08)
    } else if op == 0xD0 {
        if !pre.registers.f.c { crate::ret::spec_ret_post(pre, post, 3) } else { post == pre }
    } else if op == 0xD1 {
        post == (Cpu { registers: (Registers { d: (pre.spec_pop_value() / 256) as u8, e: (pre.spec_pop_value() % 256) as u8, sp: spec_wadd16(pre.registers.sp, 2), ..pre.registers }), ..pre })
    } else if op == 0xD2 {
        if !pre.registers.f.c { crate::jp::spec_jump_post(pre, post, pre.spec_arg_word(), 1) } else { post == pre }
    } else if op == 0xD4 {
        if !pre.registers.f.c { crate::call::spec_call_post(pre, post, 3) } else { post == pre }
    } else if op == 0xD5 {
        Cpu::spec_push_post(pre, post, pre.registers.spec_de())
    } else if op == 0xD6 {
        spec_alu_sub_post(pre, post, pre.spec_arg_byte(), 0)
    } else if op == 0xD7 {
        crate::rst::spec_rst_post(pre, post, 0x10)
    } else if op == 0xD8 {
        if pre.registers.f.c { crate::ret::spec_ret_post(pre, post, 3) } else { post == pre }
    } else if op == 0xD9 {
        post == (Cpu { registers: (Registers { pc: pre.spec_pop_value(), sp: spec_wadd16(pre.registers.sp, 2), ..pre.registers }), interrupt_master_enable: true, inhibit_pc: true, ..pre })
    } else if op == 0xDA {
        if pre.registers.f.c { crate::jp::spec_jump_post(pre, post, pre.spec_arg_word(), 1) } else { post == pre }
    } else if op == 0xDC {
        if pre.registers.f.c { crate::call::spec_call_post(pre, post, 3) } else { post == pre }
    } else if op == 0xDE {
        spec_alu_sub_post(pre, post, pre.spec_arg_byte(), pre.spec_carry_in())
    } else if op == 0xDF {
        crate::rst::spec_rst_post(pre, post, 0x18)
    } else if op == 0xE0 {
        Cpu::spec_store_post(pre, post, pre.registers.a, (0xFF00 + pre.spec_arg_byte()) as u16)
    } else if op == 0xE1 {
        post == (Cpu { registers: (Registers { h: (pre.spec_pop_value() / 256) as u8, l: (pre.spec_pop_value() % 256) as u8, sp: spec_wadd16(pre.registers.sp, 2), ..pre.registers }), ..pre })
    } else if op == 0xE2 {
        Cpu::spec_store_post(pre, post, pre.registers.a, (0xFF00 + pre.registers.c) as u16)
    } else if op == 0xE5 {
        Cpu::spec_push_post(pre, post, pre.registers.spec_hl())
    } else if op == 0xE6 {
        spec_alu_bitwise_post(pre, post, pre.registers.a & pre.spec_arg_byte(), false)
    } else if op == 0xE7 {
        crate::rst::spec_rst_post(pre, post, 0x20)
    } else if op == 0xE8 {
        crate::add::sp::spec_add_sp_post(pre, post, pre.spec_arg_byte())
    } else if op == 0xE9 {
        crate::jp::spec_jump_post(pre, post, pre.registers.spec_hl(), 0)
    } else if op == 0xEA {
        Cpu::spec_store_post(pre, post, pre.registers.a, pre.spec_arg_word())
    } else if op == 0xEE {
        spec_alu_bitwise_post(pre, post, pre.registers.a ^ pre.spec_arg_byte(), true)
    } else if op == 0xEF {
        crate::rst::spec_rst_post(pre, post, 0x28)
    } else if op == 0xF0 {
        post == (Cpu { registers: (Registers { a: pre.memory.spec_read((0xFF00 + pre.spec_arg_byte()) as u16), ..pre.registers }), ..pre })
    } else if op == 0xF1 {
        post == (Cpu { registers: (Registers { a: (pre.spec_pop_value() / 256) as u8, f: crate::flags::FlagRegister::spec_from_byte((pre.spec_pop_value() % 256) as u8), sp: spec_wadd16(pre.registers.sp, 2), ..pre.registers }), ..pre })
    } else if op == 0xF2 {
        post == (Cpu { registers: (Registers { a: pre.memory.spec_read((0xFF00 + pre.registers.c) as u16), ..pre.registers }), ..pre })
    } else if op == 0xF3 {
        post == (Cpu { interrupt_master_enable: false, ..pre })
    } else if op == 0xF5 {
        Cpu::spec_push_post(pre, post, pre.registers.spec_af())
    } else if op == 0xF6 {
        spec_alu_bitwise_post(pre, post, pre.registers.a | pre.spec_arg_byte(), false)
    } else if op == 0xF7 {
        crate::rst::spec_rst_post(pre, post, 0x30)
    } else if op == 0xF8 {
        crate::ld::hl::spec_ld_hl_sp_post(pre, post)
    } else if op == 0xF9 {
        post == (Cpu { registers: (Registers { sp: pre.registers.spec_hl(), ..pre.registers }), ..pre })
    } else if op == 0xFA {
        post == (Cpu { registers: (Registers { a: pre.memory.spec_read(pre.spec_arg_word()), ..pre.registers }), ..pre })
    } else if op == 0xFB {
        post == (Cpu { interrupt_master_enable: true, ..pre })
    } else if op == 0xFE {
        spec_alu_cp_post(pre, post, pre.spec_arg_byte())
    } else if op == 0xFF {
        crate::rst::spec_rst_post(pre, post, 0x38)
    } else {
        true
    }
}

/// The per-instruction semantics of the whole table: how the state after
/// executing the defined instruction `op` relates to the state before it.
/// `step` applies this relation to the fetched state, then advances PC and
/// charges the base cycles.
pub open spec fn spec_instruction_post(pre: Cpu, post: Cpu, op: u8) -> bool {
    if op < 0x40 {
        spec_instruction_post_q0(pre, post, op)
    } else if op < 0x80 {
        spec_instruction_post_q1(pre, post, op)
    } else if op < 0xC0 {
        spec_instruction_post_q2(pre, post, op)
    } else {
        spec_instruction_post_q3(pre, post, op)
    }
}

/// Execute one defined instruction on the CPU: the single dispatch point
/// of the 256-entry table. Each handler's own contract states what the
/// instruction does; this dispatcher guarantees that the well-formedness
/// of the core is kept, that at most the branch-taken surcharge lands in
/// the cycle accumulator, and that the fetch latches stay untouched.
pub(crate) fn execute(cpu: &mut crate::cpu::Cpu, op: u8)
    requires
        old(cpu).wf(),
        old(cpu).machine_cycles == 0,
        crate::opcodes::spec_opcode_defined(op),
    ensures
        final(cpu).wf(),
        final(cpu).machine_cycles <= 3,
        final(cpu).current_instruction == old(cpu).current_instruction,
        final(cpu).current_argument == old(cpu).current_argument,
        final(cpu).ime_delay == old(cpu).ime_delay,
        !final(cpu).inhibit_pc ==> final(cpu).machine_cycles == 0,
        !final(cpu).inhibit_pc && op != 0x18 ==> final(cpu).registers.pc == old(
            cpu,
        ).registers.pc,
        spec_opcode_no_branch(op) ==> final(cpu).inhibit_pc == old(cpu).inhibit_pc,
        spec_instruction_post(*old(cpu), *final(cpu), op),
{
    if op < 0x40 {
        execute_control_loads(cpu, op);
    } else if op < 0x80 {
        execute_moves(cpu, op);
    } else if op < 0xC0 {
        execute_alu(cpu, op);
    } else {
        execute_control_flow(cpu, op);
    }
}

/// Instructions 0x00..=0x3F: loads, sixteen-bit arithmetic, increments,
/// rotates and the control instructions of the first quadrant.
#[verifier::rlimit(60)]
fn execute_control_loads(cpu: &mut crate::cpu::Cpu, op: u8)
    requires
        old(cpu).wf(),
        old(cpu).machine_cycles == 0,
        crate::opcodes::spec_opcode_defined(op),
        op < 0x40,
    ensures
        final(cpu).wf(),
        final(cpu).machine_cycles <= 3,
        final(cpu).current_instruction == old(cpu).current_instruction,
        final(cpu).current_argument == old(cpu).current_argument,
        final(cpu).ime_delay == old(cpu).ime_delay,
        !final(cpu).inhibit_pc ==> final(cpu).machine_cycles == 0,
        !final(cpu).inhibit_pc && op != 0x18 ==> final(cpu).registers.pc == old(
            cpu,
        ).registers.pc,
        spec_opcode_no_branch(op) ==> final(cpu).inhibit_pc == old(cpu).inhibit_pc,
        spec_instruction_post_q0(*old(cpu), *final(cpu), op),
{
    proof {
        reveal(spec_instruction_post_q0);
    }
    match op {
        0x00 => {},
        0x01 => crate::ld::bc::imm(cpu),
        0x02 => crate::ld::bc_ind::a(cpu),
        0x03 => crate::inc::bc(cpu),
        0x04 => crate::inc::b(cpu),
        0x05 => crate::dec::b(cpu),
        0x06 => {
            let v = cpu.get_byte_argument();
            cpu.registers.b = v;
        },
        0x07 => crate::rotate::rlca(cpu),
        0x08 => crate::ld::addr::sp(cpu),
        0x09 => crate::add::hl::bc(cpu),
        0x0A => crate::ld::a::bc_ind(cpu),
        0x0B => crate::dec::bc(cpu),
        0x0C => crate::inc::c(cpu),
        0x0D => crate::dec::c(cpu),
        0x0E => {
            let v = cpu.get_byte_argument();
            cpu.registers.c = v;
        },
        0x0F => crate::rotate::rrca(cpu),
        0x10 => crate::interrupt::stop(cpu),
        0x11 => crate::ld::de::imm(cpu),
        0x12 => crate::ld::de_ind::a(cpu),
        0x13 => crate::inc::de(cpu),
        0x14 => crate::inc::d(cpu),
        0x15 => crate::dec::d(cpu),
        0x16 => {
            let v = cpu.get_byte_argument();
            cpu.registers.d = v;
        },
        0x17 => crate::rotate::rla(cpu),
        0x18 => crate::jr::r8(cpu),
        0x19 => crate::add::hl::de(cpu),
        0x1A => crate::ld::a::de_ind(cpu),
        0x1B => crate::dec::de(cpu),
        0x1C => crate::inc::e(cpu),
        0x1D => crate::dec::e(cpu),
        0x1E => {
            let v = cpu.get_byte_argument();
            cpu.registers.e = v;
        },
        0x1F => crate::rotate::rra(cpu),
        0x20 => crate::jr::nz(cpu),
        0x21 => crate::ld::hl::imm(cpu),
        0x22 => crate::ld::hl_ind_add::a(cpu),
        0x23 => crate::inc::hl(cpu),
        0x24 => crate::inc::h(cpu),
        0x25 => crate::dec::h(cpu),
        0x26 => {
            let v = cpu.get_byte_argument();
            cpu.registers.h = v;
        },
        0x27 => crate::logic::daa(cpu),
        0x28 => crate::jr::z(cpu),
        0x29 => crate::add::hl::hl(cpu),
        0x2A => crate::ld::a::hl_ind_add(cpu),
        0x2B => crate::dec::hl(cpu),
        0x2C => crate::inc::l(cpu),
        0x2D => crate::dec::l(cpu),
        0x2E => {
            let v = cpu.get_byte_argument();
            cpu.registers.l = v;
        },
        0x2F => crate::logic::cpl(cpu),
        0x30 => crate::jr::nc(cpu),
        0x31 => crate::ld::sp::imm(cpu),
        0x32 => crate::ld::hl_ind_sub::a(cpu),
        0x33 => crate::inc::sp(cpu),
        0x34 => crate::inc::hl_ind(cpu),
        0x35 => crate::dec::hl_ind(cpu),
        0x36 => crate::ld::hl_ind::imm(cpu),
        0x37 => crate::logic::scf(cpu),
        0x38 => crate::jr::c(cpu),
        0x39 => crate::add::hl::sp(cpu),
        0x3A => crate::ld::a::hl_ind_sub(cpu),
        0x3B => crate::dec::sp(cpu),
        0x3C => crate::inc::a(cpu),
        0x3D => crate::dec::a(cpu),
        0x3E => crate::ld::a::imm(cpu),
        0x3F => crate::logic::ccf(cpu),
        _ => {
            proof {
                assert(false);
            }
        },
    }
}

/// Instructions 0x40..=0x7F: the register-to-register moves, the moves
/// through (HL), and HALT.
#[verifier::rlimit(60)]
fn execute_moves(cpu: &mut crate::cpu::Cpu, op: u8)
    requires
        old(cpu).wf(),
        old(cpu).machine_cycles == 0,
        crate::opcodes::spec_opcode_defined(op),
        0x40 <= op < 0x80,
    ensures
        final(cpu).wf(),
        final(cpu).machine_cycles <= 3,
        final(cpu).current_instruction == old(cpu).current_instruction,
        final(cpu).current_argument == old(cpu).current_argument,
        final(cpu).ime_delay == old(cpu).ime_delay,
        !final(cpu).inhibit_pc ==> final(cpu).machine_cycles == 0,
        !final(cpu).inhibit_pc && op != 0x18 ==> final(cpu).registers.pc == old(
            cpu,
        ).registers.pc,
        spec_opcode_no_branch(op) ==> final(cpu).inhibit_pc == old(cpu).inhibit_pc,
        spec_instruction_post_q1(*old(cpu), *final(cpu), op),
{
    proof {
        reveal(spec_instruction_post_q1);
    }
    match op {
        0x40 => {
            let v = cpu.registers.b;
            cpu.registers.b = v;
        },
        0x41 => {
            let v = cpu.registers.c;
            cpu.registers.b = v;
        },
        0x42 => {
            let v = cpu.registers.d;
            cpu.registers.b = v;
        },
        0x43 => {
            let v = cpu.registers.e;
            cpu.registers.b = v;
        },
        0x44 => {
            let v = cpu.registers.h;
            cpu.registers.b = v;
        },
        0x45 => {
            let v = cpu.registers.l;
            cpu.registers.b = v;
        },
        0x46 => {
            let addr = cpu.registers.hl();
            let v = cpu.read_byte(addr);
            cpu.registers.b = v;
        },
        0x47 => {
            let v = cpu.registers.a;
            cpu.registers.b = v;
        },
        0x48 => {
            let v = cpu.registers.b;
            cpu.registers.c = v;
        },
        0x49 => {
            let v = cpu.registers.c;
            cpu.registers.c = v;
        },
        0x4A => {
            let v = cpu.registers.d;
            cpu.registers.c = v;
        },
        0x4B => {
            let v = cpu.registers.e;
            cpu.registers.c = v;
        },
        0x4C => {
            let v = cpu.registers.h;
            cpu.registers.c = v;
        },
        0x4D => {
            let v = cpu.registers.l;
            cpu.registers.c = v;
        },
        0x4E => {
            let addr = cpu.registers.hl();
            let v = cpu.read_byte(addr);
            cpu.registers.c = v;
        },
        0x4F => {
            let v = cpu.registers.a;
            cpu.registers.c = v;
        },
        0x50 => {
            let v = cpu.registers.b;
            cpu.registers.d = v;
        },
        0x51 => {
            let v = cpu.registers.c;
            cpu.registers.d = v;
        },
        0x52 => {
            let v = cpu.registers.d;
            cpu.registers.d = v;
        },
        0x53 => {
            let v = cpu.registers.e;
            cpu.registers.d = v;
        },
        0x54 => {
            let v = cpu.registers.h;
            cpu.registers.d = v;
        },
        0x55 => {
            let v = cpu.registers.l;
            cpu.registers.d = v;
        },
        0x56 => {
            let addr = cpu.registers.hl();
            let v = cpu.read_byte(addr);
            cpu.registers.d = v;
        },
        0x57 => {
            let v = cpu.registers.a;
            cpu.registers.d = v;
        },
        0x58 => {
            let v = cpu.registers.b;
            cpu.registers.e = v;
        },
        0x59 => {
            let v = cpu.registers.c;
            cpu.registers.e = v;
        },
        0x5A => {
            let v = cpu.registers.d;
            cpu.registers.e = v;
        },
        0x5B => {
            let v = cpu.registers.e;
            cpu.registers.e = v;
        },
        0x5C => {
            let v = cpu.registers.h;
            cpu.registers.e = v;
        },
        0x5D => {
            let v = cpu.registers.l;
            cpu.registers.e = v;
        },
        0x5E => {
            let addr = cpu.registers.hl();
            let v = cpu.read_byte(addr);
            cpu.registers.e = v;
        },
        0x5F => {
            let v = cpu.registers.a;
            cpu.registers.e = v;
        },
        0x60 => {
            let v = cpu.registers.b;
            cpu.registers.h = v;
        },
        0x61 => {
            let v = cpu.registers.c;
            cpu.registers.h = v;
        },
        0x62 => {
            let v = cpu.registers.d;
            cpu.registers.h = v;
        },
        0x63 => {
            let v = cpu.registers.e;
            cpu.registers.h = v;
        },
        0x64 => {
            let v = cpu.registers.h;
            cpu.registers.h = v;
        },
        0x65 => {
            let v = cpu.registers.l;
            cpu.registers.h = v;
        },
        0x66 => {
            let addr = cpu.registers.hl();
            let v = cpu.read_byte(addr);
            cpu.registers.h = v;
        },
        0x67 => {
            let v = cpu.registers.a;
            cpu.registers.h = v;
        },
        0x68 => {
            let v = cpu.registers.b;
            cpu.registers.l = v;
        },
        0x69 => {
            let v = cpu.registers.c;
            cpu.registers.l = v;
        },
        0x6A => {
            let v = cpu.registers.d;
            cpu.registers.l = v;
        },
        0x6B => {
            let v = cpu.registers.e;
            cpu.registers.l = v;
        },
        0x6C => {
            let v = cpu.registers.h;
            cpu.registers.l = v;
        },
        0x6D => {
            let v = cpu.registers.l;
            cpu.registers.l = v;
        },
        0x6E => {
            let addr = cpu.registers.hl();
            let v = cpu.read_byte(addr);
            cpu.registers.l = v;
        },
        0x6F => {
            let v = cpu.registers.a;
            cpu.registers.l = v;
        },
        0x70 => crate::ld::hl_ind::b(cpu),
        0x71 => crate::ld::hl_ind::c(cpu),
        0x72 => crate::ld::hl_ind::d(cpu),
        0x73 => crate::ld::hl_ind::e(cpu),
        0x74 => crate::ld::hl_ind::h(cpu),
        0x75 => crate::ld::hl_ind::l(cpu),
        0x76 => crate::interrupt::halt(cpu),
        0x77 => crate::ld::hl_ind::a(cpu),
        0x78 => crate::ld::a::b(cpu),
        0x79 => crate::ld::a::c(cpu),
        0x7A => crate::ld::a::d(cpu),
        0x7B => crate::ld::a::e(cpu),
        0x7C => crate::ld::a::h(cpu),
        0x7D => crate::ld::a::l(cpu),
        0x7E => crate::ld::a::hl_ind(cpu),
        0x7F => crate::ld::a::a(cpu),
        _ => {
            proof {
                assert(false);
            }
        },
    }
}

/// Instructions 0x80..=0xBF: the eight-bit arithmetic and logic block.
#[verifier::rlimit(60)]
fn execute_alu(cpu: &mut crate::cpu::Cpu, op: u8)
    requires
        old(cpu).wf(),
        old(cpu).machine_cycles == 0,
        crate::opcodes::spec_opcode_defined(op),
        0x80 <= op < 0xC0,
    ensures
        final(cpu).wf(),
        final(cpu).machine_cycles <= 3,
        final(cpu).current_instruction == old(cpu).current_instruction,
        final(cpu).current_argument == old(cpu).current_argument,
        final(cpu).ime_delay == old(cpu).ime_delay,
        !final(cpu).inhibit_pc ==> final(cpu).machine_cycles == 0,
        !final(cpu).inhibit_pc && op != 0x18 ==> final(cpu).registers.pc == old(
            cpu,
        ).registers.pc,
        spec_opcode_no_branch(op) ==> final(cpu).inhibit_pc == old(cpu).inhibit_pc,
        spec_instruction_post_q2(*old(cpu), *final(cpu), op),
{
    proof {
        reveal(spec_instruction_post_q2);
    }
    match op {
        0x80 => crate::add::a::b(cpu),
        0x81 => crate::add::a::c(cpu),
        0x82 => crate::add::a::d(cpu),
        0x83 => crate::add::a::e(cpu),
        0x84 => crate::add::a::h(cpu),
        0x85 => crate::add::a::l(cpu),
        0x86 => crate::add::a::hl_ind(cpu),
        0x87 => crate::add::a::a(cpu),
        0x88 => crate::adc::a::b(cpu),
        0x89 => crate::adc::a::c(cpu),
        0x8A => crate::adc::a::d(cpu),
        0x8B => crate::adc::a::e(cpu),
        0x8C => crate::adc::a::h(cpu),
        0x8D => crate::adc::a::l(cpu),
        0x8E => crate::adc::a::hl_ind(cpu),
        0x8F => crate::adc::a::a(cpu),
        0x90 => crate::sub::b(cpu),
        0x91 => crate::sub::c(cpu),
        0x92 => crate::sub::d(cpu),
        0x93 => crate::sub::e(cpu),
        0x94 => crate::sub::h(cpu),
        0x95 => crate::sub::l(cpu),
        0x96 => crate::sub::hl_ind(cpu),
        0x97 => crate::sub::a(cpu),
        0x98 => crate::sbc::b(cpu),
        0x99 => crate::sbc::c(cpu),
        0x9A => crate::sbc::d(cpu),
        0x9B => crate::sbc::e(cpu),
        0x9C => crate::sbc::h(cpu),
        0x9D => crate::sbc::l(cpu),
        0x9E => crate::sbc::hl_ind(cpu),
        0x9F => crate::sbc::a(cpu),
        0xA0 => {
            let v = cpu.registers.b;
            crate::alu::and_val(cpu, v);
        },
        0xA1 => {
            let v = cpu.registers.c;
            crate::alu::and_val(cpu, v);
        },
        0xA2 => {
            let v = cpu.registers.d;
            crate::alu::and_val(cpu, v);
        },
        0xA3 => {
            let v = cpu.registers.e;
            crate::alu::and_val(cpu, v);
        },
        0xA4 => {
            let v = cpu.registers.h;
            crate::alu::and_val(cpu, v);
        },
        0xA5 => {
            let v = cpu.registers.l;
            crate::alu::and_val(cpu, v);
        },
        0xA6 => {
            let addr = cpu.registers.hl();
            let v = cpu.read_byte(addr);
            crate::alu::and_val(cpu, v);
        },
        0xA7 => {
            let v = cpu.registers.a;
            crate::alu::and_val(cpu, v);
        },
        0xA8 => {
            let v = cpu.registers.b;
            crate::alu::xor_val(cpu, v);
        },
        0xA9 => {
            let v = cpu.registers.c;
            crate::alu::xor_val(cpu, v);
        },
        0xAA => {
            let v = cpu.registers.d;
            crate::alu::xor_val(cpu, v);
        },
        0xAB => {
            let v = cpu.registers.e;
            crate::alu::xor_val(cpu, v);
        },
        0xAC => {
            let v = cpu.registers.h;
            crate::alu::xor_val(cpu, v);
        },
        0xAD => {
            let v = cpu.registers.l;
            crate::alu::xor_val(cpu, v);
        },
        0xAE => {
            let addr = cpu.registers.hl();
            let v = cpu.read_byte(addr);
            crate::alu::xor_val(cpu, v);
        },
        0xAF => {
            let v = cpu.registers.a;
            crate::alu::xor_val(cpu, v);
        },
        0xB0 => {
            let v = cpu.registers.b;
            crate::alu::or_val(cpu, v);
        },
        0xB1 => {
            let v = cpu.registers.c;
            crate::alu::or_val(cpu, v);
        },
        0xB2 => {
            let v = cpu.registers.d;
            crate::alu::or_val(cpu, v);
        },
        0xB3 => {
            let v = cpu.registers.e;
            crate::alu::or_val(cpu, v);
        },
        0xB4 => {
            let v = cpu.registers.h;
            crate::alu::or_val(cpu, v);
        },
        0xB5 => {
            let v = cpu.registers.l;
            crate::alu::or_val(cpu, v);
        },
        0xB6 => {
            let addr = cpu.registers.hl();
            let v = cpu.read_byte(addr);
            crate::alu::or_val(cpu, v);
        },
        0xB7 => {
            let v = cpu.registers.a;
            crate::alu::or_val(cpu, v);
        },
        0xB8 => {
            let v = cpu.registers.b;
            crate::alu::cp_val(cpu, v);
        },
        0xB9 => {
            let v = cpu.registers.c;
            crate::alu::cp_val(cpu, v);
        },
        0xBA => {
            let v = cpu.registers.d;
            crate::alu::cp_val(cpu, v);
        },
        0xBB => {
            let v = cpu.registers.e;
            crate::alu::cp_val(cpu, v);
        },
        0xBC => {
            let v = cpu.registers.h;
            crate::alu::cp_val(cpu, v);
        },
        0xBD => {
            let v = cpu.registers.l;
            crate::alu::cp_val(cpu, v);
        },
        0xBE => {
            let addr = cpu.registers.hl();
            let v = cpu.read_byte(addr);
            crate::alu::cp_val(cpu, v);
        },
        0xBF => {
            let v = cpu.registers.a;
            crate::alu::cp_val(cpu, v);
        },
        _ => {
            proof {
                assert(false);
            }
        },
    }
}

/// Instructions 0xC0..=0xFF: jumps, calls, returns, restarts, the stack
/// instructions and the interrupt-control instructions.
#[verifier::rlimit(60)]
fn execute_control_flow(cpu: &mut crate::cpu::Cpu, op: u8)
    requires
        old(cpu).wf(),
        old(cpu).machine_cycles == 0,
        crate::opcodes::spec_opcode_defined(op),
        0xC0 <= op,
    ensures
        final(cpu).wf(),
        final(cpu).machine_cycles <= 3,
        final(cpu).current_instruction == old(cpu).current_instruction,
        final(cpu).current_argument == old(cpu).current_argument,
        final(cpu).ime_delay == old(cpu).ime_delay,
        !final(cpu).inhibit_pc ==> final(cpu).machine_cycles == 0,
        !final(cpu).inhibit_pc && op != 0x18 ==> final(cpu).registers.pc == old(
            cpu,
        ).registers.pc,
        spec_opcode_no_branch(op) ==> final(cpu).inhibit_pc == old(cpu).inhibit_pc,
        spec_instruction_post_q3(*old(cpu), *final(cpu), op),
{
    proof {
        reveal(spec_instruction_post_q3);
    }
    match op {
        0xC0 => crate::ret::nz(cpu),
        0xC1 => crate::stack::pop::bc(cpu),
        0xC2 => crate::jp::nz(cpu),
        0xC3 => crate::jp::a16(cpu),
        0xC4 => crate::call::nz(cpu),
        0xC5 => crate::stack::push::bc(cpu),
        0xC6 => crate::add::a::imm(cpu),
        0xC7 => crate::rst::rst_0(cpu),
        0xC8 => crate::ret::z(cpu),
        0xC9 => crate::ret::ret(cpu),
        0xCA => crate::jp::z(cpu),
        0xCC => crate::call::z(cpu),
        0xCD => crate::call::a16(cpu),
        0xCE => crate::adc::a::imm(cpu),
        0xCF => crate::rst::rst_1(cpu),
        0xD0 => crate::ret::nc(cpu),
        0xD1 => crate::stack::pop::de(cpu),
        0xD2 => crate::jp::nc(cpu),
        0xD4 => crate::call::nc(cpu),
        0xD5 => crate::stack::push::de(cpu),
        0xD6 => crate::sub::imm(cpu),
        0xD7 => crate::rst::rst_2(cpu),
        0xD8 => crate::ret::c(cpu),
        0xD9 => crate::interrupt::reti(cpu),
        0xDA => crate::jp::c(cpu),
        0xDC => crate::call::c(cpu),
        0xDE => crate::sbc::imm(cpu),
        0xDF => crate::rst::rst_3(cpu),
        0xE0 => crate::ldh::addr::a(cpu),
        0xE1 => crate::stack::pop::hl(cpu),
        0xE2 => crate::ld::c_ind::a(cpu),
        0xE5 => crate::stack::push::hl(cpu),
        0xE6 => {
            let v = cpu.get_byte_argument();
            crate::alu::and_val(cpu, v);
        },
        0xE7 => crate::rst::rst_4(cpu),
        0xE8 => crate::add::sp::r8(cpu),
        0xE9 => crate::jp::hl_ind(cpu),
        0xEA => crate::ld::addr::a(cpu),
        0xEE => {
            let v = cpu.get_byte_argument();
            crate::alu::xor_val(cpu, v);
        },
        0xEF => crate::rst::rst_5(cpu),
        0xF0 => crate::ldh::a::addr(cpu),
        0xF1 => crate::stack::pop::af(cpu),
        0xF2 => crate::ld::a::c_ind(cpu),
        0xF3 => crate::interrupt::di(cpu),
        0xF5 => crate::stack::push::af(cpu),
        0xF6 => {
            let v = cpu.get_byte_argument();
            crate::alu::or_val(cpu, v);
        },
        0xF7 => crate::rst::rst_6(cpu),
        0xF8 => crate::ld::hl::sp_add_reg(cpu),
        0xF9 => crate::ld::sp::hl(cpu),
        0xFA => crate::ld::a::addr(cpu),
        0xFB => crate::interrupt::ei(cpu),
        0xFE => {
            let v = cpu.get_byte_argument();
            crate::alu::cp_val(cpu, v);
        },
        0xFF => crate::rst::rst_7(cpu),
        _ => {
            proof {
                assert(false);
            }
        },
    }
}

} // verus!

