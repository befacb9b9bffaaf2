//! The interrupt controller: the request mask IF, the enable mask IE, and
//! the fixed-priority arbiter that picks the lowest-numbered pending source.

use vstd::prelude::*;
use crate::errors::CoreError;

verus! {

/// The five interrupt sources, in priority order: the lowest bit number is
/// served first.
#[derive(Debug, Clone, Copy, PartialEq, Eq, Structural)]
pub enum Interrupt {
    Vblank,
    Lcdc,
    Timer,
    Serial,
    Joypad,
}

impl Interrupt {
    /// The single-bit mask of this source: bit 0 for VBlank up to bit 4 for
    /// Joypad.
    pub open spec fn spec_mask(self) -> u8 {
        match self {
            Interrupt::Vblank => 1,
            Interrupt::Lcdc => 2,
            Interrupt::Timer => 4,
            Interrupt::Serial => 8,
            Interrupt::Joypad => 16,
        }
    }

    /// The fixed program-counter target of this source's service routine.
    pub open spec fn spec_vector(self) -> u16 {
        match self {
            Interrupt::Vblank => 0x0040,
            Interrupt::Lcdc => 0x0048,
            Interrupt::Timer => 0x0050,
            Interrupt::Serial => 0x0058,
            Interrupt::Joypad => 0x0060,
        }
    }

    /// The single-bit mask of this source.
    pub fn mask(&self) -> (r: u8)
        ensures
            r == self.spec_mask(),
    {
        match self {
            Interrupt::Vblank => 1,
            Interrupt::Lcdc => 2,
            Interrupt::Timer => 4,
            Interrupt::Serial => 8,
            Interrupt::Joypad => 16,
        }
    }

    /// The service-routine address of this source.
    pub fn vector(&self) -> (r: u16)
        ensures
            r == self.spec_vector(),
    {
        match self {
            Interrupt::Vblank => 0x0040,
            Interrupt::Lcdc => 0x0048,
            Interrupt::Timer => 0x0050,
            Interrupt::Serial => 0x0058,
            Interrupt::Joypad => 0x0060,
        }
    }

    /// The source whose single-bit mask is the given byte, or
    /// `InvalidInterruptBitmask` when the byte is not a power of two below 32.
    pub fn from_mask(value: u8) -> (r: Result<Interrupt, CoreError>)
        ensures
            value == 1 ==> r == Ok::<Interrupt, CoreError>(Interrupt::Vblank),
            value == 2 ==> r == Ok::<Interrupt, CoreError>(Interrupt::Lcdc),
            value == 4 ==> r == Ok::<Interrupt, CoreError>(Interrupt::Timer),
            value == 8 ==> r == Ok::<Interrupt, CoreError>(Interrupt::Serial),
            value == 16 ==> r == Ok::<Interrupt, CoreError>(Interrupt::Joypad),
            value != 1 && value != 2 && value != 4 && value != 8 && value != 16
                ==> r == Err::<Interrupt, CoreError>(CoreError::InvalidInterruptBitmask(value)),
    {
        match value {
            1 => Ok(Interrupt::Vblank),
            2 => Ok(Interrupt::Lcdc),
            4 => Ok(Interrupt::Timer),
            8 => Ok(Interrupt::Serial),
            16 => Ok(Interrupt::Joypad),
            _ => Err(CoreError::InvalidInterruptBitmask(value)),
        }
    }
}

/// One five-bit interrupt mask, one boolean per source.
#[derive(Debug, Clone, Copy, PartialEq, Eq, Structural)]
pub struct InterruptMask {
    pub vblank: bool,
    pub lcdc: bool,
    pub timer: bool,
    pub serial: bool,
    pub joypad: bool,
}

impl InterruptMask {
    /// The mask as a five-bit byte, VBlank in bit 0.
    pub open spec fn spec_byte(self) -> u8 {
        ((if self.vblank { 1int } else { 0 })
            + (if self.lcdc { 2int } else { 0 })
            + (if self.timer { 4int } else { 0 })
            + (if self.serial { 8int } else { 0 })
            + (if self.joypad { 16int } else { 0 })) as u8
    }

    /// The mask decoded from a byte; bits above 4 are ignored.
    pub open spec fn spec_from_byte(value: u8) -> InterruptMask {
        InterruptMask {
            vblank: value % 2 == 1,
            lcdc: value / 2 % 2 == 1,
            timer: value / 4 % 2 == 1,
            serial: value / 8 % 2 == 1,
            joypad: value / 16 % 2 == 1,
        }
    }

    /// Whether the bit for the given source is set.
    pub open spec fn spec_has(self, i: Interrupt) -> bool {
        match i {
            Interrupt::Vblank => self.vblank,
            Interrupt::Lcdc => self.lcdc,
            Interrupt::Timer => self.timer,
            Interrupt::Serial => self.serial,
            Interrupt::Joypad => self.joypad,
        }
    }

    /// No bit is set.
    pub open spec fn spec_is_empty(self) -> bool {
        !self.vblank && !self.lcdc && !self.timer && !self.serial && !self.joypad
    }

    /// Encode the mask as a byte, VBlank in bit 0.
    pub fn byte(&self) -> (r: u8)
        ensures
            r == self.spec_byte(),
    {
        let mut value: u8 = 0;
        if self.vblank {
            value += 1;
        }
        if self.lcdc {
            value += 2;
        }
        if self.timer {
            value += 4;
        }
        if self.serial {
            value += 8;
        }
        if self.joypad {
            value += 16;
        }
        value
    }

    /// Decode a byte into a mask; bits above 4 are dropped.
    pub fn from_byte(value: u8) -> (r: InterruptMask)
        ensures
            r == InterruptMask::spec_from_byte(value),
    {
        InterruptMask {
            vblank: value % 2 == 1,
            lcdc: value / 2 % 2 == 1,
            timer: value / 4 % 2 == 1,
            serial: value / 8 % 2 == 1,
            joypad: value / 16 % 2 == 1,
        }
    }
}

impl Default for InterruptMask {
    /// No source set.
    fn default() -> (r: Self)
        ensures
            r == (InterruptMask {
                vblank: false,
                lcdc: false,
                timer: false,
                serial: false,
                joypad: false,
            }),
    {
        InterruptMask { vblank: false, lcdc: false, timer: false, serial: false, joypad: false }
    }
}

/// The interrupt controller: the request mask (memory-mapped at 0xFF0F) and
/// the enable mask (memory-mapped at 0xFFFF).
#[derive(Debug, Clone, Copy, PartialEq, Eq, Structural)]
pub struct InterruptController {
    pub request: InterruptMask,
    pub enabled: InterruptMask,
}

impl InterruptController {
    /// Whether the given source is both requested and enabled.
    pub open spec fn spec_pending(self, i: Interrupt) -> bool {
        self.request.spec_has(i) && self.enabled.spec_has(i)
    }

    /// The pending source with the highest priority (the lowest bit number),
    /// if any source is pending.
    pub open spec fn spec_highest_pending(self) -> Option<Interrupt> {
        if self.spec_pending(Interrupt::Vblank) {
            Some(Interrupt::Vblank)
        } else if self.spec_pending(Interrupt::Lcdc) {
            Some(Interrupt::Lcdc)
        } else if self.spec_pending(Interrupt::Timer) {
            Some(Interrupt::Timer)
        } else if self.spec_pending(Interrupt::Serial) {
            Some(Interrupt::Serial)
        } else {
            if self.spec_pending(Interrupt::Joypad) {
                Some(Interrupt::Joypad)
            } else {
                None
            }
        }
    }

    /// The controller with the request bit of the given source cleared.
    pub open spec fn spec_without_request(self, i: Interrupt) -> InterruptController {
        InterruptController {
            request: match i {
                Interrupt::Vblank => InterruptMask { vblank: false, ..self.request },
                Interrupt::Lcdc => InterruptMask { lcdc: false, ..self.request },
                Interrupt::Timer => InterruptMask { timer: false, ..self.request },
                Interrupt::Serial => InterruptMask { serial: false, ..self.request },
                Interrupt::Joypad => InterruptMask { joypad: false, ..self.request },
            },
            ..self
        }
    }

    /// Return the pending source with the highest priority and clear its
    /// request bit; leave the controller unchanged when nothing is pending.
    /// Clearing the bit is part of the dispatch protocol.
    pub fn get_pending_interrupt(&mut self) -> (r: Option<Interrupt>)
        ensures
            r == old(self).spec_highest_pending(),
            match r {
                Some(i) => *final(self) == old(self).spec_without_request(i),
                None => *final(self) == *old(self),
            },
    {
        if self.request.vblank && self.enabled.vblank {
            self.request.vblank = false;
            Some(Interrupt::Vblank)
        } else if self.request.lcdc && self.enabled.lcdc {
            self.request.lcdc = false;
            Some(Interrupt::Lcdc)
        } else if self.request.timer && self.enabled.timer {
            self.request.timer = false;
            Some(Interrupt::Timer)
        } else if self.request.serial && self.enabled.serial {
            self.request.serial = false;
            Some(Interrupt::Serial)
        } else if self.request.joypad && self.enabled.joypad {
            self.request.joypad = false;
            Some(Interrupt::Joypad)
        } else {
            None
        }
    }

    /// Set the request bit of the given source; everything else is kept.
    pub fn request_interrupt(&mut self, interrupt: Interrupt)
        ensures
            *final(self) == (InterruptController {
                request: match interrupt {
                    Interrupt::Vblank => InterruptMask { vblank: true, ..old(self).request },
                    Interrupt::Lcdc => InterruptMask { lcdc: true, ..old(self).request },
                    Interrupt::Timer => InterruptMask { timer: true, ..old(self).request },
                    Interrupt::Serial => InterruptMask { serial: true, ..old(self).request },
                    Interrupt::Joypad => InterruptMask { joypad: true, ..old(self).request },
                },
                ..*old(self)
            }),
    {
        match interrupt {
            Interrupt::Vblank => self.request.vblank = true,
            Interrupt::Lcdc => self.request.lcdc = true,
            Interrupt::Timer => self.request.timer = true,
            Interrupt::Serial => self.request.serial = true,
            Interrupt::Joypad => self.request.joypad = true,
        }
    }

    /// Set the enable bit of the given source; everything else is kept.
    pub fn enable_interrupt(&mut self, interrupt: Interrupt)
        ensures
            *final(self) == (InterruptController {
                enabled: match interrupt {
                    Interrupt::Vblank => InterruptMask { vblank: true, ..old(self).enabled },
                    Interrupt::Lcdc => InterruptMask { lcdc: true, ..old(self).enabled },
                    Interrupt::Timer => InterruptMask { timer: true, ..old(self).enabled },
                    Interrupt::Serial => InterruptMask { serial: true, ..old(self).enabled },
                    Interrupt::Joypad => InterruptMask { joypad: true, ..old(self).enabled },
                },
                ..*old(self)
            }),
    {
        match interrupt {
            Interrupt::Vblank => self.enabled.vblank = true,
            Interrupt::Lcdc => self.enabled.lcdc = true,
            Interrupt::Timer => self.enabled.timer = true,
            Interrupt::Serial => self.enabled.serial = true,
            Interrupt::Joypad => self.enabled.joypad = true,
        }
    }

    /// Whether some source is both requested and enabled.
    pub fn interrupts_pending(&self) -> (r: bool)
        ensures
            r == (self.spec_highest_pending() is Some),
    {
        (self.request.vblank && self.enabled.vblank)
            || (self.request.lcdc && self.enabled.lcdc)
            || (self.request.timer && self.enabled.timer)
            || (self.request.serial && self.enabled.serial)
            || (self.request.joypad && self.enabled.joypad)
    }

    /// Whether some source is requested, enabled or not.
    pub fn interrupts_requested(&self) -> (r: bool)
        ensures
            r == !self.request.spec_is_empty(),
    {
        self.request.vblank || self.request.lcdc || self.request.timer
            || self.request.serial || self.request.joypad
    }
}

impl Default for InterruptController {
    /// Nothing requested, nothing enabled.
    fn default() -> (r: Self)
        ensures
            r.request.spec_is_empty(),
            r.enabled.spec_is_empty(),
    {
        InterruptController {
            request: InterruptMask {
                vblank: false,
                lcdc: false,
                timer: false,
                serial: false,
                joypad: false,
            },
            enabled: InterruptMask {
                vblank: false,
                lcdc: false,
                timer: false,
                serial: false,
                joypad: false,
            },
        }
    }
}

} // verus!
