//! A byte-addressable memory region with inclusive bounds and an owning
//! byte array. Out-of-range accesses are reported as `AddressOutOfRegion`;
//! word accesses are little-endian, the low byte at the lower address.

use vstd::prelude::*;
use crate::errors::CoreError;

verus! {

/// One region of the address space: the bytes for addresses
/// `start ..= end`.
#[derive(Debug)]
pub struct Ram {
    pub start: u16,
    pub end: u16,
    pub memory: Vec<u8>,
}

impl Ram {
    /// The bounds are ordered and the array covers them exactly.
    pub open spec fn wf(self) -> bool {
        self.start <= self.end
            && self.memory@.len() == self.end - self.start + 1
    }

    /// Whether the region owns the given address.
    pub open spec fn spec_in_range(self, addr: u16) -> bool {
        self.start <= addr <= self.end
    }

    /// The byte stored for an in-range address.
    pub open spec fn spec_at(self, addr: u16) -> u8 {
        self.memory@[addr - self.start]
    }

    /// A region covering `start ..= end`, zero-filled.
    pub fn new(start: u16, end: u16) -> (r: Ram)
        requires
            start <= end,
        ensures
            r.wf(),
            r.start == start,
            r.end == end,
            forall|a: u16| r.spec_in_range(a) ==> r.spec_at(a) == 0,
    {
        let len: usize = (end - start) as usize + 1;
        let mut memory: Vec<u8> = Vec::new();
        let mut i: usize = 0;
        while i < len
            invariant
                i <= len,
                memory@.len() == i,
                forall|k: int| 0 <= k < i ==> memory@[k] == 0,
            decreases len - i,
        {
            memory.push(0);
            i += 1;
        }
        Ram { start, end, memory }
    }

    /// The byte at `addr`, or `AddressOutOfRegion` when the region does not
    /// own `addr`.
    pub fn read_byte(&self, addr: u16) -> (r: Result<u8, CoreError>)
        requires
            self.wf(),
        ensures
            r == if self.spec_in_range(addr) {
                Ok::<u8, CoreError>(self.spec_at(addr))
            } else {
                Err::<u8, CoreError>(CoreError::AddressOutOfRegion(addr))
            },
    {
        if addr < self.start || addr > self.end {
            Err(CoreError::AddressOutOfRegion(addr))
        } else {
            Ok(self.memory[(addr - self.start) as usize])
        }
    }

    /// The little-endian word whose low byte sits at `addr` and high byte at
    /// `addr + 1`, or `AddressOutOfRegion` when either byte would fall
    /// outside the region.
    pub fn read_word(&self, addr: u16) -> (r: Result<u16, CoreError>)
        requires
            self.wf(),
        ensures
            r == if self.spec_in_range(addr) && addr < self.end {
                Ok::<u16, CoreError>(crate::registers::spec_pair(
                    self.spec_at((addr + 1) as u16),
                    self.spec_at(addr),
                ))
            } else {
                Err::<u16, CoreError>(CoreError::AddressOutOfRegion(addr))
            },
    {
        if addr < self.start || addr >= self.end {
            Err(CoreError::AddressOutOfRegion(addr))
        } else {
            let lo = self.memory[(addr - self.start) as usize];
            let hi = self.memory[(addr + 1 - self.start) as usize];
            Ok((hi as u16) * 256 + lo as u16)
        }
    }

    /// Store a byte at `addr`; the region is unchanged and
    /// `AddressOutOfRegion` is returned when it does not own `addr`.
    pub fn write_byte(&mut self, byte: u8, addr: u16) -> (r: Result<(), CoreError>)
        requires
            old(self).wf(),
        ensures
            final(self).wf(),
            final(self).start == old(self).start,
            final(self).end == old(self).end,
            old(self).spec_in_range(addr) ==> {
                &&& r == Ok::<(), CoreError>(())
                &&& final(self).memory@ == old(self).memory@.update(
                    addr - old(self).start,
                    byte,
                )
            },
            !old(self).spec_in_range(addr) ==> {
                &&& r == Err::<(), CoreError>(CoreError::AddressOutOfRegion(addr))
                &&& *final(self) == *old(self)
            },
    {
        if addr < self.start || addr > self.end {
            Err(CoreError::AddressOutOfRegion(addr))
        } else {
            let idx: usize = (addr - self.start) as usize;
            self.memory.set(idx, byte);
            Ok(())
        }
    }

    /// Store a word little-endian: the low byte at `addr`, the high byte at
    /// `addr + 1`. Nothing is written and `AddressOutOfRegion` is returned
    /// when either byte would fall outside the region.
    pub fn write_word(&mut self, word: u16, addr: u16) -> (r: Result<(), CoreError>)
        requires
            old(self).wf(),
        ensures
            final(self).wf(),
            final(self).start == old(self).start,
            final(self).end == old(self).end,
            old(self).spec_in_range(addr) && addr < old(self).end ==> {
                &&& r == Ok::<(), CoreError>(())
                &&& final(self).memory@ == old(self).memory@.update(
                    addr - old(self).start,
                    (word % 256) as u8,
                ).update(addr + 1 - old(self).start, (word / 256) as u8)
            },
            !(old(self).spec_in_range(addr) && addr < old(self).end) ==> {
                &&& r == Err::<(), CoreError>(CoreError::AddressOutOfRegion(addr))
                &&& *final(self) == *old(self)
            },
    {
        if addr < self.start || addr >= self.end {
            Err(CoreError::AddressOutOfRegion(addr))
        } else {
            let idx: usize = (addr - self.start) as usize;
            self.memory.set(idx, (word % 256) as u8);
            self.memory.set(idx + 1, (word / 256) as u8);
            Ok(())
        }
    }
}

/// Writing a word and reading it back at the same in-range address returns
/// the word: the region's byte layout is little-endian.
pub proof fn lemma_ram_word_roundtrip(pre: Ram, post: Ram, word: u16, addr: u16)
    requires
        pre.wf(),
        post.wf(),
        pre.spec_in_range(addr),
        addr < pre.end,
        post.start == pre.start,
        post.end == pre.end,
        post.memory@ == pre.memory@.update(addr - pre.start, (word % 256) as u8).update(
            addr + 1 - pre.start,
            (word / 256) as u8,
        ),
    ensures
        crate::registers::spec_pair(post.spec_at((addr + 1) as u16), post.spec_at(addr)) == word,
{
}

} // verus!
