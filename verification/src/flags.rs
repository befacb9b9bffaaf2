//! The flag byte F of the register file, kept as four booleans so that the
//! low nibble of its byte encoding is zero by construction.

use vstd::prelude::*;

verus! {

/// The four condition flags held in bits 7..4 of the F register.
/// Bits 3..0 of the byte encoding are always zero.
#[derive(Debug, Clone, Copy, PartialEq, Eq, Structural)]
pub struct FlagRegister {
    /// Zero flag (bit 7): the result of the last operation was zero.
    pub z: bool,
    /// Subtract flag (bit 6): the last operation was a subtraction.
    pub n: bool,
    /// Half-carry flag (bit 5): carry out of bit 3 (or bit 11 for ADD HL,rr).
    pub h: bool,
    /// Carry flag (bit 4): carry out of bit 7 (or bit 15 for word additions).
    pub c: bool,
}

impl FlagRegister {
    /// Byte encoding of the flags: Z, N, H, C in bits 7, 6, 5, 4.
    pub open spec fn spec_value(self) -> u8 {
        ((if self.z { 128int } else { 0 })
            + (if self.n { 64int } else { 0 })
            + (if self.h { 32int } else { 0 })
            + (if self.c { 16int } else { 0 })) as u8
    }

    /// Flags decoded from a byte; bits 3..0 are ignored.
    pub open spec fn spec_from_byte(value: u8) -> FlagRegister {
        FlagRegister {
            z: value / 128 % 2 == 1,
            n: value / 64 % 2 == 1,
            h: value / 32 % 2 == 1,
            c: value / 16 % 2 == 1,
        }
    }

    /// Encode the flags as the F byte.
    pub fn value(&self) -> (r: u8)
        ensures
            r == self.spec_value(),
    {
        let mut value: u8 = 0;
        if self.z {
            value += 128;
        }
        if self.n {
            value += 64;
        }
        if self.h {
            value += 32;
        }
        if self.c {
            value += 16;
        }
        value
    }

    /// Load the flags from an F byte; the low nibble of the byte is dropped.
    pub fn set(&mut self, value: u8)
        ensures
            *final(self) == FlagRegister::spec_from_byte(value),
    {
        self.z = value / 128 % 2 == 1;
        self.n = value / 64 % 2 == 1;
        self.h = value / 32 % 2 == 1;
        self.c = value / 16 % 2 == 1;
    }
}

impl Default for FlagRegister {
    /// All four flags clear.
    fn default() -> (r: Self)
        ensures
            r == (FlagRegister { z: false, n: false, h: false, c: false }),
    {
        FlagRegister { z: false, n: false, h: false, c: false }
    }
}

/// The low nibble of the F byte is zero after any operation: every encoding
/// of the four flags is a multiple of 16.
pub proof fn lemma_flag_byte_low_nibble_zero(f: FlagRegister)
    ensures
        f.spec_value() % 16 == 0,
{
}

/// Decoding an F byte and encoding it again returns the byte with its low
/// nibble masked to zero.
pub proof fn lemma_flag_byte_masks_low_nibble(value: u8)
    ensures
        FlagRegister::spec_from_byte(value).spec_value() == value - value % 16,
{
    assert(FlagRegister::spec_from_byte(value).spec_value() == value - value % 16)
        by (bit_vector);
}

/// Encoding the flags and decoding the byte again returns the same flags.
pub proof fn lemma_flag_byte_roundtrip(f: FlagRegister)
    ensures
        FlagRegister::spec_from_byte(f.spec_value()) == f,
{
}

} // verus!
