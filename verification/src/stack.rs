//! PUSH and POP of the four register pairs.

pub mod pop;
pub mod push;
