//! The load instructions LD, grouped by destination: the accumulator, the
//! register pairs, SP, and the stores through (BC), (DE), (HL), (C) and an
//! absolute address.

pub mod a;
pub mod addr;
pub mod bc;
pub mod bc_ind;
pub mod c_ind;
pub mod de;
pub mod de_ind;
pub mod hl;
pub mod hl_ind;
pub mod hl_ind_add;
pub mod hl_ind_sub;
pub mod sp;
