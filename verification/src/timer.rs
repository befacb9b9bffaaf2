//! The programmable timer: DIV, TIMA, TMA and TAC, memory-mapped at
//! 0xFF04..=0xFF07, with the two internal prescaler accumulators. Ticked in
//! batches of machine cycles; an overflow of TIMA reloads it from TMA and
//! raises a Timer interrupt request.

use vstd::prelude::*;
use vstd::arithmetic::div_mod::{
    lemma_fundamental_div_mod_converse_div, lemma_fundamental_div_mod_converse_mod,
};
use crate::errors::CoreError;
use crate::interrupts::Interrupt;

verus! {

/// Memory-mapped address of the divider register.
pub const DIV: u16 = 0xFF04;

/// Memory-mapped address of the timer counter.
pub const TIMA: u16 = 0xFF05;

/// Memory-mapped address of the timer modulo.
pub const TMA: u16 = 0xFF06;

/// Memory-mapped address of the timer control register.
pub const TAC: u16 = 0xFF07;

/// The four timer registers and the two internal prescaler accumulators,
/// counted in CPU ticks (four per machine cycle).
#[derive(Debug, Clone, Copy, PartialEq, Eq, Structural)]
pub struct TimerRegisters {
    /// Divider register: incremented once every 256 CPU ticks; any write
    /// resets it to zero.
    pub div: u8,
    /// Timer counter: incremented at the rate selected by TAC when the
    /// timer is enabled; reloaded from TMA on overflow.
    pub tima: u8,
    /// Timer modulo: the value loaded into TIMA on overflow.
    pub tma: u8,
    /// Timer control: bit 2 enables TIMA, bits 1..0 select its rate.
    pub tac: u8,
    /// CPU ticks accumulated towards the next DIV increment.
    pub internal_div: usize,
    /// CPU ticks accumulated towards the next TIMA increment.
    pub internal_tima: usize,
}

impl TimerRegisters {
    /// The DIV prescaler never holds a full DIV period.
    pub open spec fn wf(self) -> bool {
        self.internal_div < 256
    }

    /// Whether TAC bit 2 enables the TIMA counter.
    pub open spec fn spec_enabled(self) -> bool {
        self.tac / 4 % 2 == 1
    }

    /// The TIMA period in CPU ticks selected by TAC bits 1..0:
    /// 00 selects 1024 (4096 Hz), 01 selects 16, 10 selects 64,
    /// 11 selects 256.
    pub open spec fn spec_period(self) -> usize {
        match self.tac % 4 {
            0 => 1024,
            1 => 16,
            2 => 64,
            _ => 256,
        }
    }

    /// A timer with every register and both accumulators zero.
    pub fn new() -> (r: Self)
        ensures
            r == (TimerRegisters {
                div: 0,
                tima: 0,
                tma: 0,
                tac: 0,
                internal_div: 0,
                internal_tima: 0,
            }),
    {
        TimerRegisters { div: 0, tima: 0, tma: 0, tac: 0, internal_div: 0, internal_tima: 0 }
    }

    /// Advance the timer by `machine_cycles` machine cycles, that is four
    /// CPU ticks each. DIV gains one for every full 256 CPU ticks
    /// accumulated. When TAC enables the counter, TIMA gains one for every
    /// full period accumulated, one at a time; at the first wrap from 0xFF
    /// the counter is reloaded from TMA, the remaining accumulation is kept
    /// for the next call, and a Timer interrupt request is returned.
    pub fn tick(&mut self, machine_cycles: usize) -> (r: Option<Interrupt>)
        requires
            old(self).wf(),
            machine_cycles <= 0x1000_0000,
            old(self).internal_tima + 4 * machine_cycles <= 0xFFFF_FFFF,
        ensures
            final(self).wf(),
            final(self).tma == old(self).tma,
            final(self).tac == old(self).tac,
            final(self).internal_div == (old(self).internal_div + 4 * machine_cycles) % 256,
            final(self).div == ((old(self).div + (old(self).internal_div + 4 * machine_cycles)
                / 256) % 256) as u8,
            !old(self).spec_enabled() ==> {
                &&& r is None
                &&& final(self).tima == old(self).tima
                &&& final(self).internal_tima == old(self).internal_tima
            },
            old(self).spec_enabled() ==> {
                let acc = old(self).internal_tima + 4 * machine_cycles;
                let p = old(self).spec_period();
                let avail = acc / (p as int);
                let gap = 256 - old(self).tima;
                if avail < gap {
                    &&& r is None
                    &&& final(self).tima == old(self).tima + avail
                    &&& final(self).internal_tima == acc % (p as int)
                } else {
                    &&& r == Some(Interrupt::Timer)
                    &&& final(self).tima == old(self).tma
                    &&& final(self).internal_tima == acc - gap * p
                }
            },
    {
        let ghost acc_div: int = self.internal_div + 4 * machine_cycles;
        self.internal_div += machine_cycles * 4;

        let ghost div0 = self.div;
        let ghost mut i: int = 0;
        // One DIV increment for each full 256 CPU ticks accumulated.
        while self.internal_div >= 256
            invariant
                0 <= i,
                self.internal_div == acc_div - 256 * i,
                self.div == ((div0 + i) % 256) as u8,
                self.tima == old(self).tima,
                self.tma == old(self).tma,
                self.tac == old(self).tac,
                self.internal_tima == old(self).internal_tima,
            decreases self.internal_div,
        {
            self.div = self.div.wrapping_add(1);
            self.internal_div -= 256;
            proof {
                assert(256 * (i + 1) == 256 * i + 256) by (nonlinear_arith);
                i = i + 1;
            }
        }
        proof {
            lemma_fundamental_div_mod_converse_div(acc_div, 256, i, self.internal_div as int);
            lemma_fundamental_div_mod_converse_mod(acc_div, 256, i, self.internal_div as int);
            assert((div0 + i) % 256 == (div0 + acc_div / 256) % 256);
        }

        let timer_enabled = self.tac & 0x04 != 0;
        let input_clock_select = self.tac & 0x03;
        let input_clock: usize = match input_clock_select {
            0 => 1024,
            1 => 16,
            2 => 64,
            _ => 256,
        };
        proof {
            let t = self.tac;
            assert(t & 0x04 == if t / 4 % 2 == 1 { 4u8 } else { 0u8 }) by (bit_vector);
            assert(t & 0x03 == t % 4) by (bit_vector);
        }

        if timer_enabled {
            let ghost p: int = input_clock as int;
            let ghost acc_t: int = self.internal_tima + 4 * machine_cycles;
            self.internal_tima += machine_cycles * 4;

            let ghost tima0 = self.tima;
            let ghost mut j: int = 0;
            // One TIMA increment per full period; stop at the first wrap.
            while self.internal_tima >= input_clock
                invariant
                    0 <= j,
                    16 <= input_clock <= 1024,
                    p == input_clock as int,
                    p == old(self).spec_period(),
                    old(self).spec_enabled(),
                    acc_div == old(self).internal_div + 4 * machine_cycles,
                    acc_t == old(self).internal_tima + 4 * machine_cycles,
                    div0 == old(self).div,
                    tima0 == old(self).tima,
                    self.internal_tima == acc_t - p * j,
                    self.tima == tima0 + j,
                    tima0 + j <= 255,
                    self.div == ((div0 + acc_div / 256) % 256) as u8,
                    self.internal_div == acc_div % 256,
                    self.internal_div < 256,
                    self.tma == old(self).tma,
                    self.tac == old(self).tac,
                decreases self.internal_tima,
            {
                self.tima = self.tima.wrapping_add(1);
                self.internal_tima -= input_clock;
                proof {
                    assert(p * (j + 1) == p * j + p) by (nonlinear_arith);
                    j = j + 1;
                }
                if self.tima == 0 {
                    proof {
                        let gap: int = 256 - tima0;
                        assert(j == gap);
                        assert(acc_t - p * gap >= 0);
                        assert(acc_t / p >= gap) by {
                            lemma_fundamental_div_mod_converse_div(
                                p * gap,
                                p,
                                gap,
                                0,
                            );
                            vstd::arithmetic::div_mod::lemma_div_is_ordered(
                                p * gap,
                                acc_t,
                                p,
                            );
                        }
                    }
                    self.tima = self.tma;
                    return Some(Interrupt::Timer);
                }
            }
            proof {
                lemma_fundamental_div_mod_converse_div(acc_t, p, j, self.internal_tima as int);
                lemma_fundamental_div_mod_converse_mod(acc_t, p, j, self.internal_tima as int);
            }
        }

        None
    }

    /// Read one of the four registers; any other address is
    /// `AddressOutOfRegion`.
    pub fn read_byte(&self, addr: u16) -> (r: Result<u8, CoreError>)
        ensures
            r == if addr == DIV {
                Ok::<u8, CoreError>(self.div)
            } else if addr == TIMA {
                Ok::<u8, CoreError>(self.tima)
            } else if addr == TMA {
                Ok::<u8, CoreError>(self.tma)
            } else if addr == TAC {
                Ok::<u8, CoreError>(self.tac)
            } else {
                Err::<u8, CoreError>(CoreError::AddressOutOfRegion(addr))
            },
    {
        match addr {
            DIV => Ok(self.div),
            TIMA => Ok(self.tima),
            TMA => Ok(self.tma),
            TAC => Ok(self.tac),
            _ => Err(CoreError::AddressOutOfRegion(addr)),
        }
    }

    /// Write one of the four registers; any other address is
    /// `AddressOutOfRegion`. A write to DIV resets the register and its
    /// prescaler no matter the value written.
    pub fn write_byte(&mut self, byte: u8, addr: u16) -> (r: Result<(), CoreError>)
        ensures
            addr == DIV ==> r == Ok::<(), CoreError>(()) && *final(self) == (TimerRegisters {
                div: 0,
                internal_div: 0,
                ..*old(self)
            }),
            addr == TIMA ==> r == Ok::<(), CoreError>(()) && *final(self) == (TimerRegisters {
                tima: byte,
                ..*old(self)
            }),
            addr == TMA ==> r == Ok::<(), CoreError>(()) && *final(self) == (TimerRegisters {
                tma: byte,
                ..*old(self)
            }),
            addr == TAC ==> r == Ok::<(), CoreError>(()) && *final(self) == (TimerRegisters {
                tac: byte,
                ..*old(self)
            }),
            !(DIV <= addr <= TAC) ==> r == Err::<(), CoreError>(
                CoreError::AddressOutOfRegion(addr),
            ) && *final(self) == *old(self),
    {
        match addr {
            DIV => {
                self.div = 0;
                self.internal_div = 0;
                Ok(())
            },
            TIMA => {
                self.tima = byte;
                Ok(())
            },
            TMA => {
                self.tma = byte;
                Ok(())
            },
            TAC => {
                self.tac = byte;
                Ok(())
            },
            _ => Err(CoreError::AddressOutOfRegion(addr)),
        }
    }
}

} // verus!
