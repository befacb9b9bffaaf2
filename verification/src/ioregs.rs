//! The I/O register block at 0xFF00..=0xFF7F: the joypad byte, the four
//! timer registers, and a plain pass-through store for the rest.

use vstd::prelude::*;
use crate::errors::CoreError;
use crate::ram::Ram;
use crate::timer::{TimerRegisters, DIV, TAC, TIMA, TMA};

verus! {

/// Base address of the I/O register block.
pub const IO_REGS_START: u16 = 0xFF00;

/// Last address of the I/O register block.
pub const IO_REGS_END: u16 = 0xFF7F;

/// The memory-mapped I/O registers: joypad at 0xFF00, the timer at
/// 0xFF04..=0xFF07, everything else stored as plain bytes.
#[derive(Debug)]
pub struct IoRegs {
    /// The joypad register at 0xFF00.
    pub p1: u8,
    /// The timer registers at 0xFF04..=0xFF07.
    pub timer: TimerRegisters,
    /// Pass-through bytes for the rest of the block.
    pub others: Ram,
}

impl IoRegs {
    pub open spec fn wf(self) -> bool {
        &&& self.timer.wf()
        &&& self.others.wf()
        &&& self.others.start == IO_REGS_START
        &&& self.others.end == IO_REGS_END
    }

    /// The byte a read of the given in-range address returns.
    pub open spec fn spec_at(self, addr: u16) -> u8 {
        if addr == IO_REGS_START {
            self.p1
        } else if addr == DIV {
            self.timer.div
        } else if addr == TIMA {
            self.timer.tima
        } else if addr == TMA {
            self.timer.tma
        } else if addr == TAC {
            self.timer.tac
        } else {
            self.others.spec_at(addr)
        }
    }

    /// A fresh block: joypad zero, timer reset, every pass-through byte zero.
    pub fn new() -> (r: Self)
        ensures
            r.wf(),
            r.p1 == 0,
            r.timer == (TimerRegisters {
                div: 0,
                tima: 0,
                tma: 0,
                tac: 0,
                internal_div: 0,
                internal_tima: 0,
            }),
            forall|a: u16| IO_REGS_START <= a <= IO_REGS_END ==> r.spec_at(a) == 0,
    {
        IoRegs {
            p1: 0,
            timer: TimerRegisters::new(),
            others: Ram::new(IO_REGS_START, IO_REGS_END),
        }
    }

    /// Mutable access to the timer, for the driver that ticks it after each
    /// instruction.
    pub fn get_timer_mut(&mut self) -> (r: &mut TimerRegisters)
        ensures
            *r == old(self).timer,
            *final(self) == (IoRegs { timer: *final(r), ..*old(self) }),
    {
        &mut self.timer
    }

    /// Read a byte of the block; addresses outside it are
    /// `AddressOutOfRegion`.
    pub fn read_byte(&self, addr: u16) -> (r: Result<u8, CoreError>)
        requires
            self.wf(),
        ensures
            r == if IO_REGS_START <= addr <= IO_REGS_END {
                Ok::<u8, CoreError>(self.spec_at(addr))
            } else {
                Err::<u8, CoreError>(CoreError::AddressOutOfRegion(addr))
            },
    {
        if addr == IO_REGS_START {
            Ok(self.p1)
        } else if addr >= DIV && addr <= TAC {
            self.timer.read_byte(addr)
        } else {
            self.others.read_byte(addr)
        }
    }

    /// Write a byte of the block; addresses outside it are
    /// `AddressOutOfRegion` and leave it unchanged. A write to DIV resets
    /// the divider and its prescaler no matter the value.
    pub fn write_byte(&mut self, byte: u8, addr: u16) -> (r: Result<(), CoreError>)
        requires
            old(self).wf(),
        ensures
            final(self).wf(),
            IO_REGS_START <= addr <= IO_REGS_END ==> {
                &&& r == Ok::<(), CoreError>(())
                &&& forall|a: u16|
                    IO_REGS_START <= a <= IO_REGS_END ==> final(self).spec_at(a) == (if a == addr {
                        if addr == DIV {
                            0
                        } else {
                            byte
                        }
                    } else {
                        old(self).spec_at(a)
                    })
                &&& final(self).timer.internal_div == (if addr == DIV {
                    0
                } else {
                    old(self).timer.internal_div
                })
                &&& final(self).timer.internal_tima == old(self).timer.internal_tima
            },
            !(IO_REGS_START <= addr <= IO_REGS_END) ==> {
                &&& r == Err::<(), CoreError>(CoreError::AddressOutOfRegion(addr))
                &&& *final(self) == *old(self)
            },
    {
        if addr == IO_REGS_START {
            self.p1 = byte;
            Ok(())
        } else if addr >= DIV && addr <= TAC {
            self.timer.write_byte(byte, addr)
        } else {
            self.others.write_byte(byte, addr)
        }
    }
}

} // verus!
