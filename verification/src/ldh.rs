//! The high-page loads LDH through 0xFF00 plus a byte offset.

pub mod a;
pub mod addr;
