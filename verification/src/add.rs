//! The ADD instructions: eight-bit additions into A, word additions into
//! HL, and the signed addition into SP.

pub mod a;
pub mod hl;
pub mod sp;
