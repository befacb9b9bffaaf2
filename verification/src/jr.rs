//! The relative jumps JR with a sign-extended byte operand. The
//! unconditional form moves PC and leaves the automatic size advance in
//! place, as the opcode table charges it; the conditional forms inhibit
//! the advance when taken.

use vstd::prelude::*;
use crate::alu::{spec_sign_extend, spec_wadd16, wadd16};
use crate::cpu::Cpu;
use crate::jp::spec_jump_post;
use crate::registers::Registers;

verus! {

/// JR r8: add the sign-extended operand to PC. With an operand of 0xFE the
/// program counter moves back by exactly two.
/// - - - -
pub fn r8(cpu: &mut Cpu)
    requires
        old(cpu).wf(),
    ensures
        *final(cpu) == (Cpu {
            registers: Registers {
                pc: spec_wadd16(
                    old(cpu).registers.pc,
                    spec_sign_extend(old(cpu).spec_arg_byte()),
                ),
                ..old(cpu).registers
            },
            ..*old(cpu)
        }),
{
    let byte = cpu.get_byte_argument();
    let target = wadd16(cpu.registers.pc, crate::opcodes::sign_extend(byte));
    cpu.registers.pc = target;
}

/// JR Z,r8: add the sign-extended operand to PC when Z is set;
/// a taken branch costs one extra machine cycle.
/// - - - -
pub fn z(cpu: &mut Cpu)
    requires
        old(cpu).wf(),
    ensures
        old(cpu).registers.f.z ==> spec_jump_post(
            *old(cpu),
            *final(cpu),
            spec_wadd16(old(cpu).registers.pc, spec_sign_extend(old(cpu).spec_arg_byte())),
            1,
        ),
        !(old(cpu).registers.f.z) ==> *final(cpu) == *old(cpu),
{
    if cpu.registers.f.z {
        let byte = cpu.get_byte_argument();
        let target = wadd16(cpu.registers.pc, crate::opcodes::sign_extend(byte));
        cpu.registers.pc = target;
        cpu.machine_cycles = 1;
        cpu.inhibit_pc = true;
    }
}

/// JR NZ,r8: add the sign-extended operand to PC when Z is clear;
/// a taken branch costs one extra machine cycle.
/// - - - -
pub fn nz(cpu: &mut Cpu)
    requires
        old(cpu).wf(),
    ensures
        !old(cpu).registers.f.z ==> spec_jump_post(
            *old(cpu),
            *final(cpu),
            spec_wadd16(old(cpu).registers.pc, spec_sign_extend(old(cpu).spec_arg_byte())),
            1,
        ),
        !(!old(cpu).registers.f.z) ==> *final(cpu) == *old(cpu),
{
    if !cpu.registers.f.z {
        let byte = cpu.get_byte_argument();
        let target = wadd16(cpu.registers.pc, crate::opcodes::sign_extend(byte));
        cpu.registers.pc = target;
        cpu.machine_cycles = 1;
        cpu.inhibit_pc = true;
    }
}

/// JR C,r8: add the sign-extended operand to PC when C is set;
/// a taken branch costs one extra machine cycle.
/// - - - -
pub fn c(cpu: &mut Cpu)
    requires
        old(cpu).wf(),
    ensures
        old(cpu).registers.f.c ==> spec_jump_post(
            *old(cpu),
            *final(cpu),
            spec_wadd16(old(cpu).registers.pc, spec_sign_extend(old(cpu).spec_arg_byte())),
            1,
        ),
        !(old(cpu).registers.f.c) ==> *final(cpu) == *old(cpu),
{
    if cpu.registers.f.c {
        let byte = cpu.get_byte_argument();
        let target = wadd16(cpu.registers.pc, crate::opcodes::sign_extend(byte));
        cpu.registers.pc = target;
        cpu.machine_cycles = 1;
        cpu.inhibit_pc = true;
    }
}

/// JR NC,r8: add the sign-extended operand to PC when C is clear;
/// a taken branch costs one extra machine cycle.
/// - - - -
pub fn nc(cpu: &mut Cpu)
    requires
        old(cpu).wf(),
    ensures
        !old(cpu).registers.f.c ==> spec_jump_post(
            *old(cpu),
            *final(cpu),
            spec_wadd16(old(cpu).registers.pc, spec_sign_extend(old(cpu).spec_arg_byte())),
            1,
        ),
        !(!old(cpu).registers.f.c) ==> *final(cpu) == *old(cpu),
{
    if !cpu.registers.f.c {
        let byte = cpu.get_byte_argument();
        let target = wadd16(cpu.registers.pc, crate::opcodes::sign_extend(byte));
        cpu.registers.pc = target;
        cpu.machine_cycles = 1;
        cpu.inhibit_pc = true;
    }
}

} // verus!
