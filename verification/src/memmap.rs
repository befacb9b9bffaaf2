//! The address-space dispatcher: routes every 16-bit address to its owning
//! region, mirrors writes between work RAM and echo RAM, resets DIV on any
//! write to it, and exposes the interrupt masks at 0xFF0F and 0xFFFF.
//! Word accesses decompose into two byte accesses, low byte at the lower
//! address.

use vstd::prelude::*;
use crate::interrupts::{InterruptController, InterruptMask};
use crate::ioregs::IoRegs;
use crate::ram::Ram;

verus! {

pub const CART_START: u16 = 0x0000;

pub const CART_END: u16 = 0x7FFF;

pub const VRAM_START: u16 = 0x8000;

pub const VRAM_END: u16 = 0x9FFF;

pub const ERAM_START: u16 = 0xA000;

pub const ERAM_END: u16 = 0xBFFF;

pub const WRAM_START: u16 = 0xC000;

pub const WRAM_END: u16 = 0xDFFF;

pub const ECHO_START: u16 = 0xE000;

pub const ECHO_END: u16 = 0xFDFF;

pub const OAM_START: u16 = 0xFE00;

pub const OAM_END: u16 = 0xFE9F;

pub const UNUSABLE_START: u16 = 0xFEA0;

pub const UNUSABLE_END: u16 = 0xFEFF;

pub const HRAM_START: u16 = 0xFF80;

pub const HRAM_END: u16 = 0xFFFE;

/// Memory-mapped address of the interrupt request mask IF.
pub const IF_ADDR: u16 = 0xFF0F;

/// Memory-mapped address of the interrupt enable mask IE.
pub const IE_ADDR: u16 = 0xFFFF;

/// The byte read from the unusable range 0xFEA0..=0xFEFF.
pub const UNUSABLE_BYTE: u8 = 0xFF;

/// The alias under which a byte is stored: echo-RAM addresses map to their
/// work-RAM partner 0x2000 below, everything else to itself.
pub open spec fn spec_alias(addr: u16) -> u16 {
    if ECHO_START <= addr <= ECHO_END {
        (addr - 0x2000) as u16
    } else {
        addr
    }
}

/// The value a byte write of `byte` at `waddr` leaves at `a`: `Some` of the
/// stored byte when the write reaches `a`, `None` when it leaves `a` alone.
/// A write to the unusable range is dropped, a write to DIV stores zero,
/// and the masks at IF and IE keep their low five bits only.
pub open spec fn spec_write_effect(waddr: u16, byte: u8, a: u16) -> Option<u8> {
    if UNUSABLE_START <= waddr <= UNUSABLE_END {
        None
    } else if waddr == crate::timer::DIV {
        if a == waddr {
            Some(0)
        } else {
            None
        }
    } else if waddr == IF_ADDR || waddr == IE_ADDR {
        if a == waddr {
            Some((byte % 32) as u8)
        } else {
            None
        }
    } else {
        if spec_alias(a) == spec_alias(waddr) {
            Some(byte)
        } else {
            None
        }
    }
}

/// The value the byte at `a` has after a byte write of `byte` at `waddr`
/// hit a memory whose byte at `a` was `was`.
pub open spec fn spec_after_write(waddr: u16, byte: u8, a: u16, was: u8) -> u8 {
    match spec_write_effect(waddr, byte, a) {
        Some(v) => v,
        None => was,
    }
}

/// The value the byte at `a` has after a word write of `word` at `waddr`:
/// the low byte goes to `waddr`, then the high byte to `waddr + 1`.
pub open spec fn spec_after_write_word(waddr: u16, word: u16, a: u16, was: u8) -> u8 {
    spec_after_write(
        (waddr + 1) as u16,
        (word / 256) as u8,
        a,
        spec_after_write(waddr, (word % 256) as u8, a, was),
    )
}

/// The interrupt controller as a byte write at `waddr` leaves it: writes to
/// IF and IE load their mask, every other write leaves it alone.
pub open spec fn spec_ctrl_after_write(c: InterruptController, waddr: u16, byte: u8)
    -> InterruptController {
    InterruptController {
        request: if waddr == IF_ADDR {
            InterruptMask::spec_from_byte(byte)
        } else {
            c.request
        },
        enabled: if waddr == IE_ADDR {
            InterruptMask::spec_from_byte(byte)
        } else {
            c.enabled
        },
    }
}

/// The DIV prescaler as a byte write at `waddr` leaves it: cleared by a
/// write to DIV, kept by every other write.
pub open spec fn spec_intdiv_after_write(d: usize, waddr: u16) -> usize {
    if waddr == crate::timer::DIV {
        0
    } else {
        d
    }
}

/// Everything a byte write changes: every readable byte moves to its
/// written value exactly where the write takes effect, the interrupt
/// controller and the DIV prescaler follow their write rules, and the TIMA
/// prescaler is untouched.
pub open spec fn spec_write_byte_post(
    pre: MemoryMap,
    post: MemoryMap,
    byte: u8,
    waddr: u16,
) -> bool {
    &&& post.wf()
    &&& forall|a: u16| post.spec_read(a) == spec_after_write(waddr, byte, a, pre.spec_read(a))
    &&& post.interrupts == spec_ctrl_after_write(pre.interrupts, waddr, byte)
    &&& post.io.timer.internal_div == spec_intdiv_after_write(pre.io.timer.internal_div, waddr)
    &&& post.io.timer.internal_tima == pre.io.timer.internal_tima
}

/// Everything a word write changes: the low byte is written at `waddr`,
/// then the high byte at `waddr + 1`.
pub open spec fn spec_write_word_post(
    pre: MemoryMap,
    post: MemoryMap,
    word: u16,
    waddr: u16,
) -> bool {
    &&& post.wf()
    &&& forall|a: u16|
        post.spec_read(a) == spec_after_write_word(waddr, word, a, pre.spec_read(a))
    &&& post.interrupts == spec_ctrl_after_write(
        spec_ctrl_after_write(pre.interrupts, waddr, (word % 256) as u8),
        (waddr + 1) as u16,
        (word / 256) as u8,
    )
    &&& post.io.timer.internal_div == spec_intdiv_after_write(
        spec_intdiv_after_write(pre.io.timer.internal_div, waddr),
        (waddr + 1) as u16,
    )
    &&& post.io.timer.internal_tima == pre.io.timer.internal_tima
}

/// The full 16-bit address space: the table of regions, the timer inside
/// the I/O block, and the interrupt controller behind 0xFF0F and 0xFFFF.
#[derive(Debug)]
pub struct MemoryMap {
    /// Cartridge ROM range, treated as plain RAM by the core; bank switching
    /// belongs to the cartridge collaborator.
    pub cartridge: Ram,
    pub vram: Ram,
    pub eram: Ram,
    /// Work RAM; echo-RAM accesses are aliased onto it.
    pub wram: Ram,
    pub oam: Ram,
    pub io: IoRegs,
    pub hram: Ram,
    pub interrupts: InterruptController,
}

impl MemoryMap {
    pub open spec fn wf(self) -> bool {
        &&& self.cartridge.wf() && self.cartridge.start == CART_START && self.cartridge.end
            == CART_END
        &&& self.vram.wf() && self.vram.start == VRAM_START && self.vram.end == VRAM_END
        &&& self.eram.wf() && self.eram.start == ERAM_START && self.eram.end == ERAM_END
        &&& self.wram.wf() && self.wram.start == WRAM_START && self.wram.end == WRAM_END
        &&& self.oam.wf() && self.oam.start == OAM_START && self.oam.end == OAM_END
        &&& self.io.wf()
        &&& self.hram.wf() && self.hram.start == HRAM_START && self.hram.end == HRAM_END
    }

    /// The byte a read of `addr` returns: region bytes through the alias,
    /// 0xFF in the unusable range, the interrupt masks at IF and IE.
    pub open spec fn spec_read(self, addr: u16) -> u8 {
        if addr <= CART_END {
            self.cartridge.spec_at(addr)
        } else if addr <= VRAM_END {
            self.vram.spec_at(addr)
        } else if addr <= ERAM_END {
            self.eram.spec_at(addr)
        } else if addr <= WRAM_END {
            self.wram.spec_at(addr)
        } else if addr <= ECHO_END {
            self.wram.spec_at((addr - 0x2000) as u16)
        } else if addr <= OAM_END {
            self.oam.spec_at(addr)
        } else if addr <= UNUSABLE_END {
            UNUSABLE_BYTE
        } else if addr == IF_ADDR {
            self.interrupts.request.spec_byte()
        } else if addr <= crate::ioregs::IO_REGS_END {
            self.io.spec_at(addr)
        } else if addr <= HRAM_END {
            self.hram.spec_at(addr)
        } else {
            self.interrupts.enabled.spec_byte()
        }
    }

    /// A fresh address space: every RAM byte zero, the timer reset, nothing
    /// requested or enabled in the interrupt controller. Reads of the
    /// unusable range return 0xFF.
    pub fn new() -> (r: Self)
        ensures
            r.wf(),
            forall|a: u16| r.spec_read(a) == (if UNUSABLE_START <= a <= UNUSABLE_END {
                UNUSABLE_BYTE
            } else {
                0u8
            }),
            r.io.timer == (crate::timer::TimerRegisters {
                div: 0,
                tima: 0,
                tma: 0,
                tac: 0,
                internal_div: 0,
                internal_tima: 0,
            }),
            r.interrupts.request.spec_is_empty(),
            r.interrupts.enabled.spec_is_empty(),
    {
        MemoryMap {
            cartridge: Ram::new(CART_START, CART_END),
            vram: Ram::new(VRAM_START, VRAM_END),
            eram: Ram::new(ERAM_START, ERAM_END),
            wram: Ram::new(WRAM_START, WRAM_END),
            oam: Ram::new(OAM_START, OAM_END),
            io: IoRegs::new(),
            hram: Ram::new(HRAM_START, HRAM_END),
            interrupts: InterruptController {
                request: InterruptMask {
                    vblank: false,
                    lcdc: false,
                    timer: false,
                    serial: false,
                    joypad: false,
                },
                enabled: InterruptMask {
                    vblank: false,
                    lcdc: false,
                    timer: false,
                    serial: false,
                    joypad: false,
                },
            },
        }
    }

    /// Read the byte at any address: region bytes through the echo alias,
    /// 0xFF in the unusable range, the interrupt masks at IF and IE.
    pub fn read_byte(&self, addr: u16) -> (r: u8)
        requires
            self.wf(),
        ensures
            r == self.spec_read(addr),
    {
        if addr <= CART_END {
            match self.cartridge.read_byte(addr) {
                Ok(b) => b,
                Err(_) => 0,
            }
        } else if addr <= VRAM_END {
            match self.vram.read_byte(addr) {
                Ok(b) => b,
                Err(_) => 0,
            }
        } else if addr <= ERAM_END {
            match self.eram.read_byte(addr) {
                Ok(b) => b,
                Err(_) => 0,
            }
        } else if addr <= WRAM_END {
            match self.wram.read_byte(addr) {
                Ok(b) => b,
                Err(_) => 0,
            }
        } else if addr <= ECHO_END {
            match self.wram.read_byte(addr - 0x2000) {
                Ok(b) => b,
                Err(_) => 0,
            }
        } else if addr <= OAM_END {
            match self.oam.read_byte(addr) {
                Ok(b) => b,
                Err(_) => 0,
            }
        } else if addr <= UNUSABLE_END {
            UNUSABLE_BYTE
        } else if addr == IF_ADDR {
            self.interrupts.request.byte()
        } else if addr <= crate::ioregs::IO_REGS_END {
            match self.io.read_byte(addr) {
                Ok(b) => b,
                Err(_) => 0,
            }
        } else if addr <= HRAM_END {
            match self.hram.read_byte(addr) {
                Ok(b) => b,
                Err(_) => 0,
            }
        } else {
            self.interrupts.enabled.byte()
        }
    }

    /// Write a byte at any address. Echo-RAM writes land in work RAM and
    /// conversely, a write to DIV resets the divider, writes to the
    /// unusable range are dropped, and the masks at IF and IE keep their
    /// low five bits.
    pub fn write_byte(&mut self, byte: u8, addr: u16)
        requires
            old(self).wf(),
        ensures
            spec_write_byte_post(*old(self), *final(self), byte, addr),
    {
        proof {
            lemma_mask_byte_of_from_byte(byte);
        }
        if addr <= CART_END {
            let _ = self.cartridge.write_byte(byte, addr);
        } else if addr <= VRAM_END {
            let _ = self.vram.write_byte(byte, addr);
        } else if addr <= ERAM_END {
            let _ = self.eram.write_byte(byte, addr);
        } else if addr <= WRAM_END {
            let _ = self.wram.write_byte(byte, addr);
        } else if addr <= ECHO_END {
            let _ = self.wram.write_byte(byte, addr - 0x2000);
        } else if addr <= OAM_END {
            let _ = self.oam.write_byte(byte, addr);
        } else if addr <= UNUSABLE_END {
            // Writes to the unusable range are dropped by policy.
        } else if addr == IF_ADDR {
            self.interrupts.request = InterruptMask::from_byte(byte);
        } else if addr <= crate::ioregs::IO_REGS_END {
            let _ = self.io.write_byte(byte, addr);
        } else if addr <= HRAM_END {
            let _ = self.hram.write_byte(byte, addr);
        } else {
            self.interrupts.enabled = InterruptMask::from_byte(byte);
        }
    }

    /// Read the little-endian word whose low byte sits at `addr` and high
    /// byte at `addr + 1`.
    pub fn read_word(&self, addr: u16) -> (r: u16)
        requires
            self.wf(),
            addr < 0xFFFF,
        ensures
            r == crate::registers::spec_pair(
                self.spec_read((addr + 1) as u16),
                self.spec_read(addr),
            ),
    {
        let lo = self.read_byte(addr);
        let hi = self.read_byte(addr + 1);
        (hi as u16) * 256 + lo as u16
    }

    /// Write a word as two byte writes: the low byte at `addr`, then the
    /// high byte at `addr + 1`.
    pub fn write_word(&mut self, word: u16, addr: u16)
        requires
            old(self).wf(),
            addr < 0xFFFF,
        ensures
            spec_write_word_post(*old(self), *final(self), word, addr),
    {
        self.write_byte((word % 256) as u8, addr);
        self.write_byte((word / 256) as u8, addr + 1);
    }
}

/// Decoding a byte into a five-bit mask and encoding it again keeps exactly
/// the low five bits.
pub proof fn lemma_mask_byte_of_from_byte(value: u8)
    ensures
        InterruptMask::spec_from_byte(value).spec_byte() == value % 32,
{
    assert(InterruptMask::spec_from_byte(value).spec_byte() == value % 32) by (bit_vector);
}

/// Echo RAM mirrors work RAM at every moment: for any address in the
/// mirrored part of work RAM, the byte read there equals the byte read
/// 0x2000 above it.
pub proof fn lemma_echo_mirror(m: MemoryMap, addr: u16)
    requires
        m.wf(),
        WRAM_START <= addr <= 0xDDFF,
    ensures
        m.spec_read(addr) == m.spec_read((addr + 0x2000) as u16),
{
}

/// A word written anywhere below the last byte of the address space lands
/// little-endian wherever the two byte writes take effect: the byte at the
/// written address holds the low half and the byte above it the high half.
/// In plain RAM regions both writes take effect unchanged.
pub proof fn lemma_write_word_little_endian(
    pre: MemoryMap,
    post: MemoryMap,
    word: u16,
    addr: u16,
)
    requires
        pre.wf(),
        addr < 0xFFFF,
        spec_write_word_post(pre, post, word, addr),
        spec_write_effect(addr, (word % 256) as u8, addr) == Some((word % 256) as u8),
        spec_write_effect((addr + 1) as u16, (word / 256) as u8, (addr + 1) as u16) == Some(
            (word / 256) as u8,
        ),
    ensures
        post.spec_read(addr) == word % 256,
        post.spec_read((addr + 1) as u16) == word / 256,
{
    assert(post.spec_read(addr) == spec_after_write_word(addr, word, addr, pre.spec_read(addr)));
    assert(spec_alias((addr + 1) as u16) != spec_alias(addr));
}

/// Writing a word into work RAM and reading it back returns the word: the
/// word round trip on RAM is the identity.
pub proof fn lemma_word_roundtrip_wram(pre: MemoryMap, post: MemoryMap, word: u16, addr: u16)
    requires
        pre.wf(),
        WRAM_START <= addr,
        addr < WRAM_END,
        spec_write_word_post(pre, post, word, addr),
    ensures
        crate::registers::spec_pair(
            post.spec_read((addr + 1) as u16),
            post.spec_read(addr),
        ) == word,
{
    lemma_write_word_little_endian(pre, post, word, addr);
}

} // verus!
