//! The programmable timer: DIV, TIMA reload from TMA, the four rates and
//! the overflow interrupt.

use dmg_core::interrupts::Interrupt;
use dmg_core::timer::{TimerRegisters, DIV, TAC, TIMA, TMA};

// Machine cycles per TIMA tick at each rate.
const CLOCK_4K: usize = 256;
const CLOCK_256K: usize = 4;
const CLOCK_64K: usize = 16;
const CLOCK_16K: usize = 64;

const ENABLED_4K: u8 = 0b100;
const ENABLED_256K: u8 = 0b101;
const ENABLED_64K: u8 = 0b110;
const ENABLED_16K: u8 = 0b111;
const DISABLED_16K: u8 = 0b011;

#[test]
fn test_div_writing() {
    let mut timer = TimerRegisters::new();
    let ticks = CLOCK_16K;

    // Tick 10 times
    for i in 0..10 {
        timer.tick(ticks);
        let div = timer.read_byte(DIV).unwrap();
        assert_eq!(div, i + 1);
    }

    // Write to div
    timer.write_byte(0xFF, DIV).unwrap();
    assert_eq!(timer.read_byte(DIV).unwrap(), 0);
}

#[test]
fn test_basic_overflow() {
    let mut timer = TimerRegisters::new();
    let ticks = CLOCK_16K;

    // Enable timer, 16384 Hz
    timer.write_byte(ENABLED_16K, TAC).unwrap();

    for i in 0..255 {
        let tick = timer.tick(ticks);
        let div = timer.read_byte(DIV).unwrap();
        let tima = timer.read_byte(TIMA).unwrap();

        assert!(tick.is_none());
        assert_eq!(div, i + 1);
        assert_eq!(tima, i + 1);
    }

    let tick = timer.tick(ticks);
    assert!(tick.is_some());
}

#[test]
fn test_disabled_timer() {
    let mut timer = TimerRegisters::new();
    let ticks = CLOCK_16K;

    // Disable timer, 16384 Hz
    timer.write_byte(DISABLED_16K, TAC).unwrap();

    for i in 0..255 {
        let tick = timer.tick(ticks);
        let div = timer.read_byte(DIV).unwrap();
        let tima = timer.read_byte(TIMA).unwrap();

        assert!(tick.is_none());
        assert_eq!(div, i + 1);
        assert_eq!(tima, 0);
    }

    let tick = timer.tick(ticks);
    assert!(tick.is_none());
}

#[test]
fn test_modulo_load() {
    let mut timer = TimerRegisters::new();
    let ticks = CLOCK_16K;

    // Enable timer, 16384 Hz
    timer.write_byte(ENABLED_16K, TAC).unwrap();
    timer.write_byte(0x0F, TMA).unwrap();

    for i in 0..255 {
        let tick = timer.tick(ticks);
        let tima = timer.read_byte(TIMA).unwrap();

        assert!(tick.is_none());
        assert_eq!(tima, i + 1);
    }

    let tick = timer.tick(ticks);
    assert!(tick.is_some());
    assert_eq!(timer.read_byte(TIMA).unwrap(), timer.read_byte(TMA).unwrap());

    for i in timer.read_byte(TMA).unwrap()..255 {
        let tick = timer.tick(ticks);
        let tima = timer.read_byte(TIMA).unwrap();

        assert!(tick.is_none());
        assert_eq!(tima, i + 1);
    }

    let tick = timer.tick(ticks);
    assert!(tick.is_some());
    assert_eq!(timer.read_byte(TIMA).unwrap(), timer.read_byte(TMA).unwrap());
}

#[test]
fn test_timer_frequencies() {
    let mut timer = TimerRegisters::new();
    let ticks = CLOCK_4K;

    // Enable timer, 4096 Hz
    timer.write_byte(ENABLED_4K, TAC).unwrap();

    for i in 0..255 {
        let tick = timer.tick(ticks);
        let tima = timer.read_byte(TIMA).unwrap();

        assert!(tick.is_none());
        assert_eq!(tima, i + 1);
    }
    assert!(timer.tick(ticks).is_some());

    // Enable timer, 65536 Hz
    let mut timer = TimerRegisters::new();
    let ticks = CLOCK_64K;
    timer.write_byte(ENABLED_64K, TAC).unwrap();

    for i in 0..255 {
        let tick = timer.tick(ticks);
        let tima = timer.read_byte(TIMA).unwrap();

        assert!(tick.is_none());
        assert_eq!(tima, i + 1);
    }
    assert!(timer.tick(ticks).is_some());

    // Enable timer, 262144 Hz
    let mut timer = TimerRegisters::new();
    let ticks = CLOCK_256K;
    timer.write_byte(ENABLED_256K, TAC).unwrap();

    for i in 0..255 {
        let tick = timer.tick(ticks);
        let tima = timer.read_byte(TIMA).unwrap();

        assert!(tick.is_none());
        assert_eq!(tima, i + 1);
    }
    assert!(timer.tick(ticks).is_some());

    // Enable timer, 16384 Hz
    let mut timer = TimerRegisters::new();
    let ticks = CLOCK_16K;
    timer.write_byte(ENABLED_16K, TAC).unwrap();

    for i in 0..255 {
        let tick = timer.tick(ticks);
        let tima = timer.read_byte(TIMA).unwrap();

        assert!(tick.is_none());
        assert_eq!(tima, i + 1);
    }
    assert!(timer.tick(ticks).is_some());
}

/// The timer-overflow scenario: one 4096 Hz period with TIMA at 0xFF
/// reloads TIMA from TMA and reports the Timer interrupt.
#[test]
fn timer_overflow_reload() {
    let mut timer = TimerRegisters::new();
    timer.write_byte(0b100, TAC).unwrap();
    timer.write_byte(0xFF, TIMA).unwrap();
    timer.write_byte(0x42, TMA).unwrap();
    let tick = timer.tick(256);
    assert_eq!(tick, Some(Interrupt::Timer));
    assert_eq!(timer.read_byte(TIMA).unwrap(), 0x42);
}

/// A timer address outside DIV..=TAC is a region error.
#[test]
fn timer_address_out_of_region() {
    let timer = TimerRegisters::new();
    assert_eq!(
        timer.read_byte(0xFF08),
        Err(dmg_core::errors::CoreError::AddressOutOfRegion(0xFF08))
    );
}

/// Ticking the timer through the CPU posts the interrupt request.
#[test]
fn cpu_tick_timer_posts_request() {
    let mut cpu = dmg_core::cpu::Cpu::reset();
    cpu.write_byte(0b100, 0xFF07);  // TAC: enable, 4096 Hz
    cpu.write_byte(0xFF, 0xFF05);  // TIMA
    cpu.write_byte(0x42, 0xFF06);  // TMA
    let r = cpu.tick_timer(256);
    assert_eq!(r, Some(Interrupt::Timer));
    assert!(cpu.memory.interrupts.request.timer);
    assert_eq!(cpu.read_byte(0xFF05), 0x42);
}
