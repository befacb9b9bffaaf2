//! Instruction-accurate core of a Sharp LR35902 (DMG) CPU emulator: the
//! register file, the 256-entry opcode dispatch, the memory map with echo
//! RAM and memory-mapped I/O, the interrupt controller and the programmable
//! timer. Every executable function carries a contract; the flag algebra,
//! the little-endian word layout, the echo-RAM mirroring and the stack
//! round trips are proved as laws in their modules.

pub mod adc;
pub mod add;
pub mod alu;
pub mod call;
pub mod cpu;
pub mod dec;
pub mod errors;
pub mod flags;
pub mod inc;
pub mod inc_c;
pub mod interrupt;
pub mod interrupts;
pub mod ioregs;
pub mod jp;
pub mod jr;
pub mod ld;
pub mod ldh;
pub mod logic;
pub mod memmap;
pub mod opcodes;
pub mod ram;
pub mod region;
pub mod registers;
pub mod ret;
pub mod rotate;
pub mod rst;
pub mod sbc;
pub mod stack;
pub mod sub;
pub mod timer;
