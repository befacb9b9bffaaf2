//! Structured errors surfaced to the driver. None of them is recovered from
//! inside the core.

use vstd::prelude::*;

verus! {

/// Fatal conditions the core reports instead of panicking.
#[derive(Debug, Clone, Copy, PartialEq, Eq, Structural)]
pub enum CoreError {
    /// An opcode byte with no defined instruction was fetched at the given
    /// address.
    UndefinedOpcode(u8, u16),
    /// An access was routed to a region whose bounds it violates.
    AddressOutOfRegion(u16),
    /// A byte that is not a power of two below 32 was converted to an
    /// interrupt source.
    InvalidInterruptBitmask(u8),
}

} // verus!
