//! The register file: eight 8-bit registers, the flag byte, PC and SP, with
//! the four paired 16-bit views AF, BC, DE and HL.

use vstd::prelude::*;
use crate::flags::FlagRegister;

verus! {

/// The CPU register file. Pairs are exposed high byte first: AF, BC, DE, HL.
#[derive(Debug, Clone, Copy, PartialEq, Eq, Structural)]
pub struct Registers {
    pub a: u8,
    pub b: u8,
    pub c: u8,
    pub d: u8,
    pub e: u8,
    pub f: FlagRegister,
    pub h: u8,
    pub l: u8,
    pub pc: u16,
    pub sp: u16,
}

/// The 16-bit value formed by a high and a low byte.
pub open spec fn spec_pair(hi: u8, lo: u8) -> u16 {
    (hi * 256 + lo) as u16
}

impl Registers {
    pub open spec fn spec_af(self) -> u16 {
        spec_pair(self.a, self.f.spec_value())
    }

    pub open spec fn spec_bc(self) -> u16 {
        spec_pair(self.b, self.c)
    }

    pub open spec fn spec_de(self) -> u16 {
        spec_pair(self.d, self.e)
    }

    pub open spec fn spec_hl(self) -> u16 {
        spec_pair(self.h, self.l)
    }

    /// A and F as one word, A in the high byte.
    pub fn af(&self) -> (r: u16)
        ensures
            r == self.spec_af(),
    {
        (self.a as u16) * 256 + self.f.value() as u16
    }

    /// B and C as one word, B in the high byte.
    pub fn bc(&self) -> (r: u16)
        ensures
            r == self.spec_bc(),
    {
        (self.b as u16) * 256 + self.c as u16
    }

    /// D and E as one word, D in the high byte.
    pub fn de(&self) -> (r: u16)
        ensures
            r == self.spec_de(),
    {
        (self.d as u16) * 256 + self.e as u16
    }

    /// H and L as one word, H in the high byte.
    pub fn hl(&self) -> (r: u16)
        ensures
            r == self.spec_hl(),
    {
        (self.h as u16) * 256 + self.l as u16
    }

    /// Write A and F from one word. The low nibble of the F half is dropped,
    /// so the stored flag byte is always a multiple of 16.
    pub fn put_af(&mut self, word: u16)
        ensures
            *final(self) == (Registers {
                a: (word / 256) as u8,
                f: FlagRegister::spec_from_byte((word % 256) as u8),
                ..*old(self)
            }),
    {
        self.a = (word / 256) as u8;
        self.f.set((word % 256) as u8);
    }

    /// Write B and C from one word, B from the high byte.
    pub fn put_bc(&mut self, word: u16)
        ensures
            *final(self) == (Registers {
                b: (word / 256) as u8,
                c: (word % 256) as u8,
                ..*old(self)
            }),
    {
        self.b = (word / 256) as u8;
        self.c = (word % 256) as u8;
    }

    /// Write D and E from one word, D from the high byte.
    pub fn put_de(&mut self, word: u16)
        ensures
            *final(self) == (Registers {
                d: (word / 256) as u8,
                e: (word % 256) as u8,
                ..*old(self)
            }),
    {
        self.d = (word / 256) as u8;
        self.e = (word % 256) as u8;
    }

    /// Write H and L from one word, H from the high byte.
    pub fn put_hl(&mut self, word: u16)
        ensures
            *final(self) == (Registers {
                h: (word / 256) as u8,
                l: (word % 256) as u8,
                ..*old(self)
            }),
    {
        self.h = (word / 256) as u8;
        self.l = (word % 256) as u8;
    }
}

impl Default for Registers {
    /// Every register zero, every flag clear.
    fn default() -> (r: Self)
        ensures
            r == (Registers {
                a: 0,
                b: 0,
                c: 0,
                d: 0,
                e: 0,
                f: FlagRegister { z: false, n: false, h: false, c: false },
                h: 0,
                l: 0,
                pc: 0,
                sp: 0,
            }),
    {
        Registers {
            a: 0,
            b: 0,
            c: 0,
            d: 0,
            e: 0,
            f: FlagRegister { z: false, n: false, h: false, c: false },
            h: 0,
            l: 0,
            pc: 0,
            sp: 0,
        }
    }
}

/// Splitting a pair into its bytes inverts forming it.
pub proof fn lemma_pair_split(hi: u8, lo: u8)
    ensures
        spec_pair(hi, lo) / 256 == hi,
        spec_pair(hi, lo) % 256 == lo,
{
}

/// Writing AF from a word stores the word with the low nibble of its F half
/// masked to zero: reading AF back yields `word - word % 16`.
pub proof fn lemma_put_af_masks_low_nibble(pre: Registers, word: u16)
    ensures
        (Registers {
            a: (word / 256) as u8,
            f: FlagRegister::spec_from_byte((word % 256) as u8),
            ..pre
        }).spec_af() == word - word % 16,
{
    let lo = (word % 256) as u8;
    crate::flags::lemma_flag_byte_masks_low_nibble(lo);
    assert(word % 256 % 16 == word % 16) by (bit_vector);
}

/// Reading AF and writing it back leaves the register file unchanged.
pub proof fn lemma_af_roundtrip(pre: Registers)
    ensures
        (Registers {
            a: (pre.spec_af() / 256) as u8,
            f: FlagRegister::spec_from_byte((pre.spec_af() % 256) as u8),
            ..pre
        }) == pre,
{
    lemma_pair_split(pre.a, pre.f.spec_value());
    crate::flags::lemma_flag_byte_roundtrip(pre.f);
}

} // verus!
