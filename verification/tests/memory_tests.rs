//! The memory map: echo RAM, the unusable range, word order, the DIV
//! reset-on-write, the interrupt masks at 0xFF0F and 0xFFFF, and the
//! region errors.

use dmg_core::cpu::Cpu;
use dmg_core::errors::CoreError;
use dmg_core::interrupts::Interrupt;
use dmg_core::memmap::MemoryMap;
use dmg_core::ram::Ram;

/// A write into work RAM is visible through echo RAM and conversely.
#[test]
fn echo_ram_mirrors_wram() {
    let mut m = MemoryMap::new();
    m.write_byte(0xAB, 0xC123);
    assert_eq!(m.read_byte(0xE123), 0xAB);
    m.write_byte(0xCD, 0xF000);
    assert_eq!(m.read_byte(0xD000), 0xCD);
    assert_eq!(m.read_byte(0xF000), 0xCD);
}

/// A sixteen-bit write lands little-endian: the low byte at the written
/// address, the high byte above it.
#[test]
fn word_write_little_endian() {
    let mut m = MemoryMap::new();
    m.write_word(0xBEEF, 0xC000);
    assert_eq!(m.read_byte(0xC000), 0xEF);
    assert_eq!(m.read_byte(0xC001), 0xBE);
}

/// Writing a word and reading it back anywhere in work RAM returns it.
#[test]
fn word_roundtrip_wram() {
    let mut m = MemoryMap::new();
    let mut a: u16 = 0xC000;
    while a < 0xDFFF {
        m.write_word(a ^ 0x55AA, a);
        assert_eq!(m.read_word(a), a ^ 0x55AA);
        a += 0x101;
    }
}

/// The unusable range reads 0xFF and drops writes.
#[test]
fn unusable_range_policy() {
    let mut m = MemoryMap::new();
    m.write_byte(0x12, 0xFEA0);
    assert_eq!(m.read_byte(0xFEA0), 0xFF);
    assert_eq!(m.read_byte(0xFEFF), 0xFF);
}

/// Writing DIV through the map resets it no matter the value.
#[test]
fn div_reset_on_write() {
    let mut cpu = Cpu::reset();
    cpu.memory.io.timer.div = 0x55;
    cpu.write_byte(0x99, 0xFF04);
    assert_eq!(cpu.read_byte(0xFF04), 0);
}

/// The masks read at 0xFF0F and 0xFFFF mirror the interrupt controller.
#[test]
fn interrupt_masks_memory_mapped() {
    let mut cpu = Cpu::reset();
    cpu.request_interrupt(Interrupt::Timer);
    cpu.enable_interrupt(Interrupt::Vblank);
    assert_eq!(cpu.read_byte(0xFF0F), 0b00100);
    assert_eq!(cpu.read_byte(0xFFFF), 0b00001);
    cpu.write_byte(0xFF, 0xFFFF);
    assert_eq!(cpu.read_byte(0xFFFF), 0b11111);
    cpu.write_byte(0b01010, 0xFF0F);
    assert_eq!(cpu.read_byte(0xFF0F), 0b01010);
}

/// A region refuses an address outside its bounds and stays unchanged.
#[test]
fn ram_address_out_of_region() {
    let mut r = Ram::new(0x8000, 0x9FFF);
    assert_eq!(r.read_byte(0x7FFF), Err(CoreError::AddressOutOfRegion(0x7FFF)));
    assert_eq!(r.write_byte(1, 0xA000), Err(CoreError::AddressOutOfRegion(0xA000)));
    assert_eq!(r.read_word(0x9FFF), Err(CoreError::AddressOutOfRegion(0x9FFF)));
    assert_eq!(r.read_byte(0x8000), Ok(0));
}

/// Only a power of two below 32 names an interrupt source.
#[test]
fn invalid_interrupt_bitmask() {
    assert_eq!(Interrupt::from_mask(1), Ok(Interrupt::Vblank));
    assert_eq!(Interrupt::from_mask(16), Ok(Interrupt::Joypad));
    assert_eq!(Interrupt::from_mask(3), Err(CoreError::InvalidInterruptBitmask(3)));
    assert_eq!(Interrupt::from_mask(0), Err(CoreError::InvalidInterruptBitmask(0)));
}

/// The flag byte always has a zero low nibble, and writing AF masks it.
#[test]
fn flag_byte_low_nibble_zero() {
    let mut cpu = Cpu::reset();
    assert_eq!(cpu.registers.f.value() & 0x0F, 0);
    cpu.registers.put_af(0xDEAD);
    assert_eq!(cpu.registers.af(), 0xDEA0);
    assert_eq!(cpu.registers.f.value() & 0x0F, 0);
}

/// A push followed by a pop returns the pushed word and restores SP.
#[test]
fn push_pop_roundtrip() {
    let mut cpu = Cpu::reset();
    cpu.registers.sp = 0xD000;
    cpu.push(0xDEAD);
    assert_eq!(cpu.registers.sp, 0xCFFE);
    let w = cpu.pop();
    assert_eq!(w, 0xDEAD);
    assert_eq!(cpu.registers.sp, 0xD000);
}

/// PUSH AF then POP AF restores A and F exactly: the stored flag byte is
/// already masked.
#[test]
fn push_pop_af_roundtrip() {
    let mut cpu = Cpu::reset();
    cpu.registers.sp = 0xD000;
    cpu.registers.a = 0x5A;
    cpu.registers.f.set(0xF0);
    dmg_core::stack::push::af(&mut cpu);
    cpu.registers.a = 0;
    cpu.registers.f.set(0);
    dmg_core::stack::pop::af(&mut cpu);
    assert_eq!(cpu.registers.a, 0x5A);
    assert_eq!(cpu.registers.f.value(), 0xF0);
    assert_eq!(cpu.registers.sp, 0xD000);
}

/// POP AF drops the low nibble of the popped flag half.
#[test]
fn pop_af_masks_low_nibble() {
    let mut cpu = Cpu::reset();
    cpu.registers.sp = 0xD000;
    cpu.push(0xDEAD);
    dmg_core::stack::pop::af(&mut cpu);
    assert_eq!(cpu.registers.af(), 0xDEA0);
}
