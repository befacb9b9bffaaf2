//! ADD with SP as destination: the signed immediate addition.

use vstd::prelude::*;
use crate::alu::{spec_sign_extend, spec_wadd16, wadd16};
use crate::cpu::Cpu;
use crate::flags::FlagRegister;
use crate::registers::Registers;

verus! {

/// Everything ADD SP,r8 changes: SP takes the wrapped sum with the
/// sign-extended operand, Z and N clear, H follows a change in the top
/// nibble of SP, and C follows a wrap-around.
pub open spec fn spec_add_sp_post(pre: Cpu, post: Cpu, byte: u8) -> bool {
    let sp1 = spec_wadd16(pre.registers.sp, spec_sign_extend(byte));
    post == (Cpu {
        registers: Registers {
            sp: sp1,
            f: FlagRegister {
                z: false,
                n: false,
                h: sp1 / 0x1000 != pre.registers.sp / 0x1000,
                c: sp1 < pre.registers.sp,
            },
            ..pre.registers
        },
        ..pre
    })
}

/// ADD SP,r8: add the sign-extended immediate operand to SP.
/// 0 0 H C
pub fn r8(cpu: &mut Cpu)
    requires
        old(cpu).wf(),
    ensures
        spec_add_sp_post(*old(cpu), *final(cpu), old(cpu).spec_arg_byte()),
{
    let old_sp = cpu.registers.sp;
    let byte = cpu.get_byte_argument();
    let sp1 = wadd16(old_sp, crate::opcodes::sign_extend(byte));
    cpu.registers.sp = sp1;
    cpu.registers.f.z = false;
    cpu.registers.f.n = false;
    cpu.registers.f.h = sp1 / 0x1000 != old_sp / 0x1000;
    cpu.registers.f.c = sp1 < old_sp;
}

} // verus!
