//! The ADC instructions: add a value and the carry flag to A.

pub mod a;
