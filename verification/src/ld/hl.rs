//! Loads into the HL pair.

use vstd::prelude::*;
use crate::alu::{spec_sign_extend, spec_wadd16, wadd16};
use crate::cpu::Cpu;
use crate::flags::FlagRegister;
use crate::registers::Registers;

verus! {

/// LD HL,d16: load the pair from the immediate word.
/// - - - -
pub fn imm(cpu: &mut Cpu)
    requires
        old(cpu).wf(),
    ensures
        *final(cpu) == (Cpu {
            registers: Registers {
                h: (old(cpu).spec_arg_word() / 256) as u8,
                l: (old(cpu).spec_arg_word() % 256) as u8,
                ..old(cpu).registers
            },
            ..*old(cpu)
        }),
{
    let word = cpu.get_word_argument();
    cpu.registers.put_hl(word);
}

/// Everything LD HL,SP+r8 changes: HL takes SP plus the sign-extended
/// operand, Z and N clear, H follows a change in the top nibble of the sum
/// against SP, and C follows a wrap-around.
pub open spec fn spec_ld_hl_sp_post(pre: Cpu, post: Cpu) -> bool {
    let sum = spec_wadd16(pre.registers.sp, spec_sign_extend(pre.spec_arg_byte()));
    post == (Cpu {
        registers: Registers {
            h: (sum / 256) as u8,
            l: (sum % 256) as u8,
            f: FlagRegister {
                z: false,
                n: false,
                h: sum / 0x1000 != pre.registers.sp / 0x1000,
                c: sum < pre.registers.sp,
            },
            ..pre.registers
        },
        ..pre
    })
}

/// LD HL,SP+r8: load HL with SP plus the sign-extended operand.
/// 0 0 H C
pub fn sp_add_reg(cpu: &mut Cpu)
    requires
        old(cpu).wf(),
    ensures
        spec_ld_hl_sp_post(*old(cpu), *final(cpu)),
{
    let byte = cpu.get_byte_argument();
    let sp = cpu.registers.sp;
    let hl1 = wadd16(sp, crate::opcodes::sign_extend(byte));
    cpu.registers.put_hl(hl1);
    cpu.registers.f.z = false;
    cpu.registers.f.n = false;
    cpu.registers.f.h = hl1 / 0x1000 != sp / 0x1000;
    cpu.registers.f.c = hl1 < sp;
}

} // verus!
