//! The interface a memory-mapped region presents to the address-space
//! dispatcher. External collaborators (PPU, APU, joypad) plug their own
//! regions in through it; the regions owned by the core expose the same
//! four operations as inherent methods with full contracts.

use vstd::prelude::*;

verus! {

/// A byte-addressable region of the 16-bit address space supporting 8- and
/// 16-bit reads and writes. Word accesses are little-endian, the low byte at
/// the lower address.
pub trait MemoryRegion {
    fn read_byte(&self, addr: u16) -> u8;

    fn write_byte(&mut self, byte: u8, addr: u16);

    fn read_word(&self, addr: u16) -> u16;

    fn write_word(&mut self, word: u16, addr: u16);
}

} // verus!
