//! Stores to an absolute operand address.

use vstd::prelude::*;
use crate::cpu::Cpu;
use crate::memmap::{spec_write_byte_post, spec_write_word_post};

verus! {

/// LD (a16),A: store A at the operand address.
/// - - - -
pub fn a(cpu: &mut Cpu)
    requires
        old(cpu).wf(),
    ensures
        final(cpu).wf(),
        Cpu::spec_store_post(
            *old(cpu),
            *final(cpu),
            old(cpu).registers.a,
            old(cpu).spec_arg_word(),
        ),
{
    let addr = cpu.get_word_argument();
    let byte = cpu.registers.a;
    cpu.write_byte(byte, addr);
}

/// Everything LD (a16),SP changes: SP lands little-endian at the operand
/// address; at the very top of the address space the high byte wraps to
/// address zero.
pub open spec fn spec_store_sp_post(pre: Cpu, post: Cpu) -> bool {
    &&& post == (Cpu { memory: post.memory, ..pre })
    &&& (pre.spec_arg_word() < 0xFFFF ==> spec_write_word_post(
        pre.memory,
        post.memory,
        pre.registers.sp,
        pre.spec_arg_word(),
    ))
    &&& (pre.spec_arg_word() == 0xFFFF ==> (exists|mid: crate::memmap::MemoryMap|
        #[trigger] spec_write_byte_post(
            pre.memory,
            mid,
            (pre.registers.sp % 256) as u8,
            0xFFFF,
        ) && spec_write_byte_post(mid, post.memory, (pre.registers.sp / 256) as u8, 0)))
}

/// LD (a16),SP: store SP little-endian at the operand address.
/// - - - -
pub fn sp(cpu: &mut Cpu)
    requires
        old(cpu).wf(),
    ensures
        final(cpu).wf(),
        spec_store_sp_post(*old(cpu), *final(cpu)),
{
    let addr = cpu.get_word_argument();
    let word = cpu.registers.sp;
    if addr < 0xFFFF {
        cpu.write_word(word, addr);
    } else {
        let ghost premem = cpu.memory;
        cpu.write_byte((word % 256) as u8, 0xFFFF);
        let ghost midmem = cpu.memory;
        cpu.write_byte((word / 256) as u8, 0);
        proof {
            assert(spec_write_byte_post(premem, midmem, (word % 256) as u8, 0xFFFF));
        }
    }
}

} // verus!
