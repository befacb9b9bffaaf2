//! The CPU core: the register file, the owned memory map, the running-mode
//! state machine and the interrupt master enable, with the stack, the
//! operand latch and the interrupt dispatch. The fetch/execute loop is
//! `step`.

use vstd::prelude::*;
use crate::alu::{spec_wadd16, spec_wsub16, wadd16, wsub16};
use crate::errors::CoreError;
use crate::interrupts::Interrupt;
use crate::memmap::{
    spec_after_write, spec_ctrl_after_write, spec_intdiv_after_write, spec_write_byte_post,
    spec_write_word_post, MemoryMap,
};
use crate::opcodes::Argument;
use crate::registers::{spec_pair, Registers};

verus! {

/// The running mode of the core. `PowerUp` only exists before `reset`;
/// `HaltBug` is the one-shot state entered by HALT with IME clear while an
/// interrupt is already pending.
#[derive(Debug, Clone, Copy, PartialEq, Eq, Structural)]
pub enum RunningMode {
    PowerUp,
    Running,
    Stop,
    HaltImeSet,
    HaltImeClear,
    HaltBug,
}

/// The CPU: registers, the exclusively owned memory map, the cycle
/// accumulator of the current step, the latched instruction and operand,
/// the interrupt master enable with its EI delay latch, and the running
/// mode.
#[derive(Debug)]
pub struct Cpu {
    pub registers: Registers,
    /// Machine cycles consumed by the instruction being executed.
    pub machine_cycles: u8,
    pub memory: MemoryMap,
    /// The opcode byte fetched last.
    pub current_instruction: u8,
    /// The operand fetched after the opcode, if the instruction has one.
    pub current_argument: Option<Argument>,
    /// Set by jumps, calls and returns that placed PC themselves: `step`
    /// must not advance PC by the instruction size.
    pub inhibit_pc: bool,
    pub interrupt_master_enable: bool,
    /// One-shot set right after EI executes: the next `step` skips its
    /// interrupt dispatch, so the instruction following EI runs first.
    pub ime_delay: bool,
    pub mode: RunningMode,
}

impl Cpu {
    pub open spec fn wf(self) -> bool {
        self.memory.wf()
    }

    /// The incoming carry of ADC and SBC: 1 when the carry flag is set.
    pub open spec fn spec_carry_in(self) -> int {
        if self.registers.f.c {
            1
        } else {
            0
        }
    }

    /// The byte operand of the current instruction: the latched byte, or
    /// the byte after the opcode when nothing byte-sized is latched.
    pub open spec fn spec_arg_byte(self) -> u8 {
        match self.current_argument {
            Some(Argument::Byte(b)) => b,
            _ => self.memory.spec_read(spec_wadd16(self.registers.pc, 1)),
        }
    }

    /// The word operand of the current instruction: the latched word, or
    /// the little-endian word after the opcode when nothing word-sized is
    /// latched.
    pub open spec fn spec_arg_word(self) -> u16 {
        match self.current_argument {
            Some(Argument::Word(w)) => w,
            _ => spec_pair(
                self.memory.spec_read(spec_wadd16(self.registers.pc, 2)),
                self.memory.spec_read(spec_wadd16(self.registers.pc, 1)),
            ),
        }
    }

    /// Everything a push of `word` leaves in memory, given the stack
    /// pointer before the push: the high byte is written at SP-1, then the
    /// low byte at SP-2, each under the ordinary byte-write rules.
    pub open spec fn spec_stack_mem_post(
        premem: MemoryMap,
        postmem: MemoryMap,
        sp0: u16,
        word: u16,
    ) -> bool {
        let sp1 = spec_wsub16(sp0, 1);
        let sp2 = spec_wsub16(sp0, 2);
        let hi = (word / 256) as u8;
        let lo = (word % 256) as u8;
        &&& postmem.wf()
        &&& forall|a: u16|
            postmem.spec_read(a) == spec_after_write(
                sp2,
                lo,
                a,
                spec_after_write(sp1, hi, a, premem.spec_read(a)),
            )
        &&& postmem.interrupts == spec_ctrl_after_write(
            spec_ctrl_after_write(premem.interrupts, sp1, hi),
            sp2,
            lo,
        )
        &&& postmem.io.timer.internal_div == spec_intdiv_after_write(
            spec_intdiv_after_write(premem.io.timer.internal_div, sp1),
            sp2,
        )
        &&& postmem.io.timer.internal_tima == premem.io.timer.internal_tima
    }

    /// Everything a push of `word` changes: SP drops by two, the bytes land
    /// below the old SP, and nothing else moves.
    pub open spec fn spec_push_post(pre: Cpu, post: Cpu, word: u16) -> bool {
        &&& post == (Cpu { registers: post.registers, memory: post.memory, ..pre })
        &&& post.registers == (Registers {
            sp: spec_wsub16(pre.registers.sp, 2),
            ..pre.registers
        })
        &&& Cpu::spec_stack_mem_post(pre.memory, post.memory, pre.registers.sp, word)
    }

    /// The word a pop returns: the little-endian word at SP.
    pub open spec fn spec_pop_value(self) -> u16 {
        spec_pair(
            self.memory.spec_read(spec_wadd16(self.registers.sp, 1)),
            self.memory.spec_read(self.registers.sp),
        )
    }

    /// The byte the address space holds right after `reset`: the handful
    /// of I/O registers the boot sequence programs, 0xFF in the unusable
    /// range, zero everywhere else.
    pub open spec fn spec_reset_read(a: u16) -> u8 {
        if a == 0xFF10 {
            0x80
        } else if a == 0xFF11 {
            0xBF
        } else if a == 0xFF12 {
            0xF3
        } else if a == 0xFF14 {
            0xBF
        } else if a == 0xFF16 {
            0x3F
        } else if a == 0xFF19 {
            0xBF
        } else if a == 0xFF1A {
            0x7F
        } else if a == 0xFF1B {
            0xFF
        } else if a == 0xFF1C {
            0x9F
        } else if a == 0xFF1E {
            0xBF
        } else if a == 0xFF20 {
            0xFF
        } else if a == 0xFF23 {
            0xBF
        } else if a == 0xFF24 {
            0x77
        } else if a == 0xFF25 {
            0xF3
        } else if a == 0xFF26 {
            0xF1
        } else if a == 0xFF40 {
            0x91
        } else if a == 0xFF47 {
            0xFC
        } else if a == 0xFF48 {
            0xFF
        } else if a == 0xFF49 {
            0xFF
        } else if crate::memmap::UNUSABLE_START <= a <= crate::memmap::UNUSABLE_END {
            crate::memmap::UNUSABLE_BYTE
        } else {
            0
        }
    }

    /// The register file as `reset` leaves it: the post-boot-ROM state.
    pub open spec fn spec_reset_registers() -> Registers {
        Registers {
            a: 0x01,
            b: 0x00,
            c: 0x13,
            d: 0x00,
            e: 0xD8,
            f: crate::flags::FlagRegister { z: true, n: false, h: true, c: true },
            h: 0x01,
            l: 0x4D,
            pc: 0x0100,
            sp: 0xFFFE,
        }
    }

    /// Construct the core in the state a DMG boot ROM leaves behind:
    /// PC=0x0100, SP=0xFFFE, AF=0x01B0, BC=0x0013, DE=0x00D8, HL=0x014D,
    /// the boot values in the I/O registers, interrupts masked off, and the
    /// mode Running.
    pub fn reset() -> (r: Cpu)
        ensures
            r.wf(),
            r.registers == Cpu::spec_reset_registers(),
            r.machine_cycles == 0,
            r.current_instruction == 0,
            r.current_argument is None,
            !r.inhibit_pc,
            !r.interrupt_master_enable,
            !r.ime_delay,
            r.mode == RunningMode::Running,
            forall|a: u16| r.memory.spec_read(a) == Cpu::spec_reset_read(a),
            r.memory.interrupts.request.spec_is_empty(),
            r.memory.interrupts.enabled.spec_is_empty(),
            r.memory.io.timer.internal_div == 0,
            r.memory.io.timer.internal_tima == 0,
    {
        let mut cpu = Cpu::default();

        cpu.registers.pc = 0x100;
        cpu.registers.a = 0x01;
        cpu.registers.f.set(0xB0);
        cpu.registers.put_bc(0x0013);
        cpu.registers.put_de(0x00D8);
        cpu.registers.put_hl(0x014D);
        cpu.registers.sp = 0xFFFE;

        // Timer registers
        cpu.write_byte(0x00, 0xFF05);  // TIMA
        cpu.write_byte(0x00, 0xFF06);  // TMA
        cpu.write_byte(0x00, 0xFF07);  // TAC

        // Sound registers
        cpu.write_byte(0x80, 0xFF10);  // NR10
        cpu.write_byte(0xBF, 0xFF11);  // NR11
        cpu.write_byte(0xF3, 0xFF12);  // NR12
        cpu.write_byte(0xBF, 0xFF14);  // NR14
        cpu.write_byte(0x3F, 0xFF16);  // NR21
        cpu.write_byte(0x00, 0xFF17);  // NR22
        cpu.write_byte(0xBF, 0xFF19);  // NR24
        cpu.write_byte(0x7F, 0xFF1A);  // NR30
        cpu.write_byte(0xFF, 0xFF1B);  // NR31
        cpu.write_byte(0x9F, 0xFF1C);  // NR32
        cpu.write_byte(0xBF, 0xFF1E);  // NR33
        cpu.write_byte(0xFF, 0xFF20);  // NR41
        cpu.write_byte(0x00, 0xFF21);  // NR42
        cpu.write_byte(0x00, 0xFF22);  // NR43
        cpu.write_byte(0xBF, 0xFF23);  // NR44
        cpu.write_byte(0x77, 0xFF24);  // NR50
        cpu.write_byte(0xF3, 0xFF25);  // NR51
        cpu.write_byte(0xF1, 0xFF26);  // NR52

        // Display registers
        cpu.write_byte(0x91, 0xFF40);  // LCDC
        cpu.write_byte(0x00, 0xFF42);  // SCY
        cpu.write_byte(0x00, 0xFF43);  // SCX
        cpu.write_byte(0x00, 0xFF45);  // LYC
        cpu.write_byte(0xFC, 0xFF47);  // BGP
        cpu.write_byte(0xFF, 0xFF48);  // OBP0
        cpu.write_byte(0xFF, 0xFF49);  // OBP1
        cpu.write_byte(0x00, 0xFF4A);  // WY
        cpu.write_byte(0x00, 0xFF4B);  // WX

        // Interrupt enable flag
        cpu.write_byte(0x00, 0xFFFF);  // IE

        cpu.mode = RunningMode::Running;
        cpu
    }

    /// Everything a plain store changes: one byte-write into memory under
    /// the ordinary write rules, registers and latches untouched.
    pub open spec fn spec_store_post(pre: Cpu, post: Cpu, byte: u8, addr: u16) -> bool {
        &&& spec_write_byte_post(pre.memory, post.memory, byte, addr)
        &&& post == (Cpu { memory: post.memory, ..pre })
    }

    /// The mode after the halt-wake check: a halted mode becomes Running
    /// as soon as some interrupt is both requested and enabled.
    pub open spec fn spec_wake_mode(pre: Cpu) -> RunningMode {
        if (pre.mode == RunningMode::HaltImeSet || pre.mode == RunningMode::HaltImeClear)
            && pre.memory.interrupts.spec_highest_pending() is Some {
            RunningMode::Running
        } else {
            pre.mode
        }
    }

    /// Everything servicing interrupt `i` changes: its request bit clears,
    /// PC is pushed, IME clears, PC moves to the vector of `i`, and five
    /// machine cycles are charged.
    pub open spec fn spec_service_post(pre: Cpu, post: Cpu, i: Interrupt) -> bool {
        let mem1 = MemoryMap {
            interrupts: pre.memory.interrupts.spec_without_request(i),
            ..pre.memory
        };
        &&& Cpu::spec_stack_mem_post(mem1, post.memory, pre.registers.sp, pre.registers.pc)
        &&& post == (Cpu {
            registers: Registers {
                pc: i.spec_vector(),
                sp: spec_wsub16(pre.registers.sp, 2),
                ..pre.registers
            },
            memory: post.memory,
            interrupt_master_enable: false,
            machine_cycles: 5,
            ..pre
        })
    }

    /// Everything the interrupt check changes. A halted mode wakes when an
    /// interrupt is pending; with IME set, the pending interrupt with the
    /// highest priority is serviced.
    pub open spec fn spec_handle_interrupts_post(pre: Cpu, post: Cpu, r: bool) -> bool {
        let woken = Cpu { mode: Cpu::spec_wake_mode(pre), ..pre };
        if pre.interrupt_master_enable {
            match pre.memory.interrupts.spec_highest_pending() {
                Some(i) => r && Cpu::spec_service_post(woken, post, i),
                None => !r && post == woken,
            }
        } else {
            !r && post == woken
        }
    }

    /// Wake a halted mode when an interrupt is pending, and with IME set
    /// service the pending interrupt with the highest priority: push PC,
    /// clear IME, jump to its vector and charge five machine cycles. The
    /// serviced request bit is cleared; no opcode runs in a serving step.
    pub fn handle_interrupts(&mut self) -> (r: bool)
        requires
            old(self).wf(),
        ensures
            final(self).wf(),
            Cpu::spec_handle_interrupts_post(*old(self), *final(self), r),
    {
        if (self.mode == RunningMode::HaltImeSet || self.mode == RunningMode::HaltImeClear)
            && self.memory.interrupts.interrupts_pending() {
            self.mode = RunningMode::Running;
        }

        if !self.interrupt_master_enable {
            return false;
        }

        match self.memory.interrupts.get_pending_interrupt() {
            Some(interrupt) => {
                let pc = self.registers.pc;
                self.push(pc);
                self.interrupt_master_enable = false;
                self.registers.pc = interrupt.vector();
                self.machine_cycles = 5;
                true
            },
            None => false,
        }
    }

    /// Store a byte at a memory address.
    pub fn write_byte(&mut self, byte: u8, addr: u16)
        requires
            old(self).wf(),
        ensures
            final(self).wf(),
            spec_write_byte_post(old(self).memory, final(self).memory, byte, addr),
            *final(self) == (Cpu { memory: final(self).memory, ..*old(self) }),
    {
        self.memory.write_byte(byte, addr);
    }

    /// Retrieve a byte from a memory address.
    pub fn read_byte(&self, addr: u16) -> (r: u8)
        requires
            self.wf(),
        ensures
            r == self.memory.spec_read(addr),
    {
        self.memory.read_byte(addr)
    }

    /// Store a word at a memory address, low byte first.
    pub fn write_word(&mut self, word: u16, addr: u16)
        requires
            old(self).wf(),
            addr < 0xFFFF,
        ensures
            final(self).wf(),
            spec_write_word_post(old(self).memory, final(self).memory, word, addr),
            *final(self) == (Cpu { memory: final(self).memory, ..*old(self) }),
    {
        self.memory.write_word(word, addr);
    }

    /// Retrieve a little-endian word from a memory address.
    pub fn read_word(&self, addr: u16) -> (r: u16)
        requires
            self.wf(),
            addr < 0xFFFF,
        ensures
            r == spec_pair(
                self.memory.spec_read((addr + 1) as u16),
                self.memory.spec_read(addr),
            ),
    {
        self.memory.read_word(addr)
    }

    /// The byte operand of the current instruction: the latched byte, or
    /// the byte after the opcode when nothing byte-sized is latched.
    pub fn get_byte_argument(&mut self) -> (r: u8)
        requires
            old(self).wf(),
        ensures
            *final(self) == *old(self),
            r == old(self).spec_arg_byte(),
    {
        match self.current_argument {
            Some(Argument::Byte(arg)) => arg,
            _ => {
                let addr = wadd16(self.registers.pc, 1);
                self.memory.read_byte(addr)
            },
        }
    }

    /// The word operand of the current instruction: the latched word, or
    /// the little-endian word after the opcode when nothing word-sized is
    /// latched.
    pub fn get_word_argument(&mut self) -> (r: u16)
        requires
            old(self).wf(),
        ensures
            *final(self) == *old(self),
            r == old(self).spec_arg_word(),
    {
        match self.current_argument {
            Some(Argument::Word(arg)) => arg,
            _ => {
                let lo = self.memory.read_byte(wadd16(self.registers.pc, 1));
                let hi = self.memory.read_byte(wadd16(self.registers.pc, 2));
                (hi as u16) * 256 + lo as u16
            },
        }
    }

    /// Push a word onto the stack: SP drops by one for the high byte, then
    /// by one for the low byte, so the low byte sits at the lower address.
    pub fn push(&mut self, word: u16)
        requires
            old(self).wf(),
        ensures
            final(self).wf(),
            Cpu::spec_push_post(*old(self), *final(self), word),
    {
        let hi = (word / 256) as u8;
        let lo = (word % 256) as u8;
        self.registers.sp = wsub16(self.registers.sp, 1);
        let sp1 = self.registers.sp;
        self.memory.write_byte(hi, sp1);
        self.registers.sp = wsub16(self.registers.sp, 1);
        let sp2 = self.registers.sp;
        self.memory.write_byte(lo, sp2);
    }

    /// Pop a word off the stack: the low byte is read at SP, the high byte
    /// above it, and SP rises by two.
    pub fn pop(&mut self) -> (r: u16)
        requires
            old(self).wf(),
        ensures
            final(self).wf(),
            r == old(self).spec_pop_value(),
            *final(self) == (Cpu {
                registers: Registers {
                    sp: spec_wadd16(old(self).registers.sp, 2),
                    ..old(self).registers
                },
                ..*old(self)
            }),
    {
        let lo = self.memory.read_byte(self.registers.sp);
        self.registers.sp = wadd16(self.registers.sp, 1);
        let hi = self.memory.read_byte(self.registers.sp);
        self.registers.sp = wadd16(self.registers.sp, 1);
        proof {
            assert(spec_wadd16(spec_wadd16(old(self).registers.sp, 1), 1) == spec_wadd16(
                old(self).registers.sp,
                2,
            ));
        }
        (hi as u16) * 256 + lo as u16
    }

    /// Post a request for the given interrupt source, as an external
    /// collaborator or the timer does.
    pub fn request_interrupt(&mut self, interrupt: Interrupt)
        requires
            old(self).wf(),
        ensures
            final(self).wf(),
            final(self).memory.interrupts.request.spec_has(interrupt),
            forall|j: Interrupt| j != interrupt
                ==> final(self).memory.interrupts.request.spec_has(j) == old(
                    self,
                ).memory.interrupts.request.spec_has(j),
            final(self).memory.interrupts.enabled == old(self).memory.interrupts.enabled,
            forall|a: u16| a != crate::memmap::IF_ADDR
                ==> final(self).memory.spec_read(a) == old(self).memory.spec_read(a),
            *final(self) == (Cpu { memory: final(self).memory, ..*old(self) }),
            final(self).memory == (MemoryMap {
                interrupts: final(self).memory.interrupts,
                ..old(self).memory
            }),
    {
        self.memory.interrupts.request_interrupt(interrupt);
    }

    /// Enable the given interrupt source in the IE mask.
    pub fn enable_interrupt(&mut self, interrupt: Interrupt)
        requires
            old(self).wf(),
        ensures
            final(self).wf(),
            final(self).memory.interrupts.enabled.spec_has(interrupt),
            forall|j: Interrupt| j != interrupt
                ==> final(self).memory.interrupts.enabled.spec_has(j) == old(
                    self,
                ).memory.interrupts.enabled.spec_has(j),
            final(self).memory.interrupts.request == old(self).memory.interrupts.request,
            forall|a: u16| a != crate::memmap::IE_ADDR
                ==> final(self).memory.spec_read(a) == old(self).memory.spec_read(a),
            *final(self) == (Cpu { memory: final(self).memory, ..*old(self) }),
            final(self).memory == (MemoryMap {
                interrupts: final(self).memory.interrupts,
                ..old(self).memory
            }),
    {
        self.memory.interrupts.enable_interrupt(interrupt);
    }

    /// Advance the owned timer by the given machine cycles; an overflow of
    /// TIMA posts a Timer interrupt request and is also returned.
    pub fn tick_timer(&mut self, machine_cycles: usize) -> (r: Option<Interrupt>)
        requires
            old(self).wf(),
            machine_cycles <= 0x1000_0000,
            old(self).memory.io.timer.internal_tima + 4 * machine_cycles <= 0xFFFF_FFFF,
        ensures
            final(self).wf(),
            Cpu::spec_tick_timer_post(*old(self), *final(self), machine_cycles, r),
    {
        let r = self.memory.io.timer.tick(machine_cycles);
        if let Some(i) = r {
            self.memory.interrupts.request_interrupt(i);
        }
        r
    }

    /// Everything `tick_timer` changes: the timer advances as `tick`
    /// describes, a TIMA overflow sets the Timer request bit, and nothing
    /// else moves.
    pub open spec fn spec_tick_timer_post(
        pre: Cpu,
        post: Cpu,
        machine_cycles: usize,
        r: Option<Interrupt>,
    ) -> bool {
        let t0 = pre.memory.io.timer;
        let t1 = post.memory.io.timer;
        let acc = t0.internal_tima + 4 * machine_cycles;
        let p = t0.spec_period();
        &&& post == (Cpu { memory: post.memory, ..pre })
        &&& post.memory == (MemoryMap {
            io: post.memory.io,
            interrupts: post.memory.interrupts,
            ..pre.memory
        })
        &&& post.memory.io == (crate::ioregs::IoRegs { timer: t1, ..pre.memory.io })
        &&& (r is Some ==> r == Some(Interrupt::Timer)
            && post.memory.interrupts == (crate::interrupts::InterruptController {
            request: crate::interrupts::InterruptMask {
                timer: true,
                ..pre.memory.interrupts.request
            },
            ..pre.memory.interrupts
        }))
        &&& (r is None ==> post.memory.interrupts == pre.memory.interrupts)
        &&& t1.tma == t0.tma
        &&& t1.tac == t0.tac
        &&& t1.internal_div == (t0.internal_div + 4 * machine_cycles) % 256
        &&& t1.div == ((t0.div + (t0.internal_div + 4 * machine_cycles) / 256) % 256) as u8
        &&& (!t0.spec_enabled() ==> r is None && t1.tima == t0.tima && t1.internal_tima
            == t0.internal_tima)
        &&& (t0.spec_enabled() ==> (if acc / (p as int) < 256 - t0.tima {
            r is None && t1.tima == t0.tima + acc / (p as int) && t1.internal_tima == acc % (
            p as int)
        } else {
            r == Some(Interrupt::Timer) && t1.tima == t0.tma && t1.internal_tima == acc - (256
                - t0.tima) * p
        }))
    }
}

impl Cpu {
    /// The operand `step` latches for the instruction byte `op` fetched at
    /// `pc`: one byte after a two-byte opcode, one little-endian word after
    /// a three-byte opcode, nothing otherwise.
    pub open spec fn spec_latched_argument(self, op: u8) -> Option<Argument> {
        if crate::opcodes::spec_opcode_size(op) == 2 {
            Some(Argument::Byte(self.memory.spec_read(spec_wadd16(self.registers.pc, 1))))
        } else if crate::opcodes::spec_opcode_size(op) == 3 {
            Some(Argument::Word(spec_pair(
                self.memory.spec_read(spec_wadd16(self.registers.pc, 2)),
                self.memory.spec_read(spec_wadd16(self.registers.pc, 1)),
            )))
        } else {
            None
        }
    }

    /// The state execution starts from inside a step: the cycle
    /// accumulator cleared, the EI delay consumed, a halted mode woken,
    /// the one-shot HaltBug already consumed back to Running, the opcode
    /// and its operand latched, and the PC-advance inhibit cleared.
    pub open spec fn spec_fetched(pre: Cpu) -> Cpu {
        let op = pre.memory.spec_read(pre.registers.pc);
        Cpu {
            machine_cycles: 0,
            ime_delay: false,
            mode: if Cpu::spec_wake_mode(pre) == RunningMode::HaltBug {
                RunningMode::Running
            } else {
                Cpu::spec_wake_mode(pre)
            },
            current_instruction: op,
            current_argument: pre.spec_latched_argument(op),
            inhibit_pc: false,
            ..pre
        }
    }

    /// Everything one step changes. In order: a halted mode wakes when an
    /// interrupt is pending; unless the EI delay skips it, a pending
    /// interrupt is serviced under IME for five cycles and no opcode runs;
    /// a gated mode charges one idle cycle; otherwise the opcode at PC is
    /// fetched with its operand and executed, an undefined opcode is
    /// reported without executing, PC advances by the instruction size
    /// unless the instruction placed it or the halt bug ate the advance,
    /// and the returned cycle count is the base cost plus any branch-taken
    /// surcharge.
    pub open spec fn spec_step_post(pre: Cpu, post: Cpu, r: Result<u8, CoreError>) -> bool {
        let woken = Cpu { mode: Cpu::spec_wake_mode(pre), machine_cycles: 0, ime_delay: false, ..pre };
        let op = pre.memory.spec_read(pre.registers.pc);
        if !pre.ime_delay && pre.interrupt_master_enable
            && pre.memory.interrupts.spec_highest_pending() is Some {
            match pre.memory.interrupts.spec_highest_pending() {
                Some(i) => r == Ok::<u8, CoreError>(5) && Cpu::spec_service_post(woken, post, i),
                None => false,
            }
        } else if Cpu::spec_wake_mode(pre) == RunningMode::Stop || Cpu::spec_wake_mode(pre)
            == RunningMode::HaltImeSet || Cpu::spec_wake_mode(pre) == RunningMode::HaltImeClear {
            r == Ok::<u8, CoreError>(1) && post == (Cpu { machine_cycles: 1, ..woken })
        } else if !crate::opcodes::spec_opcode_defined(op) {
            r == Err::<u8, CoreError>(CoreError::UndefinedOpcode(op, pre.registers.pc)) && post
                == (Cpu { current_instruction: op, ..woken })
        } else {
            &&& r == Ok::<u8, CoreError>(post.machine_cycles)
            &&& post.machine_cycles >= crate::opcodes::spec_opcode_cycles(op)
            &&& post.current_instruction == op
            &&& post.current_argument == pre.spec_latched_argument(op)
            &&& post.ime_delay == (op == 0xFB)
            &&& post.wf()
            &&& (!post.inhibit_pc && op != 0x18 && Cpu::spec_wake_mode(pre)
                != RunningMode::HaltBug ==> post.registers.pc == spec_wadd16(
                pre.registers.pc,
                crate::opcodes::spec_opcode_size(op) as u16,
            ) && post.machine_cycles == crate::opcodes::spec_opcode_cycles(op))
            &&& (!post.inhibit_pc && op != 0x18 && Cpu::spec_wake_mode(pre)
                == RunningMode::HaltBug ==> post.registers.pc == pre.registers.pc)
            &&& (crate::opcodes::spec_opcode_no_branch(op) ==> !post.inhibit_pc)
            &&& exists|mid: Cpu|
                #[trigger] crate::opcodes::spec_instruction_post(
                    Cpu::spec_fetched(pre),
                    mid,
                    op,
                ) && post == (Cpu {
                    registers: Registers {
                        pc: if mid.inhibit_pc || Cpu::spec_wake_mode(pre)
                            == RunningMode::HaltBug {
                            mid.registers.pc
                        } else {
                            spec_wadd16(
                                mid.registers.pc,
                                crate::opcodes::spec_opcode_size(op) as u16,
                            )
                        },
                        ..mid.registers
                    },
                    machine_cycles: (mid.machine_cycles
                        + crate::opcodes::spec_opcode_cycles(op)) as u8,
                    ime_delay: op == 0xFB,
                    ..mid
                })
        }
    }

    /// One instruction of progress: service a pending interrupt, idle in a
    /// gated mode, or fetch, decode and execute the opcode at PC. Returns
    /// the machine cycles the step consumed, or the undefined opcode met.
    #[verifier::rlimit(80)]
    pub fn step(&mut self) -> (r: Result<u8, CoreError>)
        requires
            old(self).wf(),
        ensures
            final(self).wf(),
            Cpu::spec_step_post(*old(self), *final(self), r),
    {
        self.machine_cycles = 0;
        let skip_dispatch = self.ime_delay;
        self.ime_delay = false;

        if skip_dispatch {
            // The instruction after EI runs before any dispatch, but a
            // halted mode still wakes.
            if (self.mode == RunningMode::HaltImeSet || self.mode == RunningMode::HaltImeClear)
                && self.memory.interrupts.interrupts_pending() {
                self.mode = RunningMode::Running;
            }
        } else {
            let serviced = self.handle_interrupts();
            if serviced {
                return Ok(5);
            }
        }

        if self.mode == RunningMode::Stop || self.mode == RunningMode::HaltImeSet || self.mode
            == RunningMode::HaltImeClear {
            self.machine_cycles = 1;
            return Ok(1);
        }

        let pc = self.registers.pc;
        let op = self.memory.read_byte(pc);
        self.current_instruction = op;
        let info = crate::opcodes::opcode_info(op);
        if !info.defined {
            return Err(CoreError::UndefinedOpcode(op, pc));
        }

        if info.size == 2 {
            let b = self.memory.read_byte(wadd16(pc, 1));
            self.current_argument = Some(Argument::Byte(b));
        } else if info.size == 3 {
            let lo = self.memory.read_byte(wadd16(pc, 1));
            let hi = self.memory.read_byte(wadd16(pc, 2));
            self.current_argument = Some(Argument::Word((hi as u16) * 256 + lo as u16));
        } else {
            self.current_argument = None;
        }

        self.inhibit_pc = false;
        let halt_bug = self.mode == RunningMode::HaltBug;
        if halt_bug {
            // The halt bug eats one PC advance: the byte after HALT is
            // fetched twice.
            self.mode = RunningMode::Running;
        }

        proof {
            assert(*self == Cpu::spec_fetched(*old(self)));
        }
        crate::opcodes::execute(self, op);
        let ghost mid = *self;

        if !self.inhibit_pc && !halt_bug {
            self.registers.pc = wadd16(self.registers.pc, info.size as u16);
        }

        self.machine_cycles = self.machine_cycles + info.cycles;
        if op == 0xFB {
            self.ime_delay = true;
        }
        Ok(self.machine_cycles)
    }
}

impl Cpu {
    /// The state `step_op` hands to execution: the chosen opcode latched
    /// with its operand read at PC, the cycle accumulator cleared and the
    /// PC-advance inhibit cleared. Unlike `spec_fetched` nothing is read
    /// at PC itself and no mode changes.
    pub open spec fn spec_fetched_op(pre: Cpu, op: u8) -> Cpu {
        Cpu {
            machine_cycles: 0,
            current_instruction: op,
            current_argument: pre.spec_latched_argument(op),
            inhibit_pc: false,
            ..pre
        }
    }

    /// Everything `step_op` changes: the chosen instruction runs with its
    /// operand taken from memory after PC, PC advances by the instruction
    /// size unless the instruction placed it, and the cycle count is
    /// returned; an undefined byte is reported without executing.
    pub open spec fn spec_step_op_post(pre: Cpu, post: Cpu, op: u8, r: Result<u8, CoreError>)
        -> bool {
        if !crate::opcodes::spec_opcode_defined(op) {
            r == Err::<u8, CoreError>(CoreError::UndefinedOpcode(op, pre.registers.pc)) && post
                == (Cpu { current_instruction: op, machine_cycles: 0, ..pre })
        } else {
            &&& r == Ok::<u8, CoreError>(post.machine_cycles)
            &&& exists|mid: Cpu|
                #[trigger] crate::opcodes::spec_instruction_post(
                    Cpu::spec_fetched_op(pre, op),
                    mid,
                    op,
                ) && post == (Cpu {
                    registers: Registers {
                        pc: if mid.inhibit_pc {
                            mid.registers.pc
                        } else {
                            spec_wadd16(
                                mid.registers.pc,
                                crate::opcodes::spec_opcode_size(op) as u16,
                            )
                        },
                        ..mid.registers
                    },
                    machine_cycles: (mid.machine_cycles
                        + crate::opcodes::spec_opcode_cycles(op)) as u8,
                    ..mid
                })
        }
    }

    /// Step through one chosen opcode, ignoring the byte at PC: the
    /// operand still comes from the bytes after PC. Interrupts, the
    /// running mode and the EI delay are not consulted; this is the
    /// single-instruction debugging entry.
    #[verifier::rlimit(80)]
    pub fn step_op(&mut self, op: u8) -> (r: Result<u8, CoreError>)
        requires
            old(self).wf(),
        ensures
            final(self).wf(),
            Cpu::spec_step_op_post(*old(self), *final(self), op, r),
    {
        self.current_instruction = op;
        self.machine_cycles = 0;
        let info = crate::opcodes::opcode_info(op);
        if !info.defined {
            return Err(CoreError::UndefinedOpcode(op, self.registers.pc));
        }

        let pc = self.registers.pc;
        if info.size == 2 {
            let b = self.memory.read_byte(wadd16(pc, 1));
            self.current_argument = Some(Argument::Byte(b));
        } else if info.size == 3 {
            let lo = self.memory.read_byte(wadd16(pc, 1));
            let hi = self.memory.read_byte(wadd16(pc, 2));
            self.current_argument = Some(Argument::Word((hi as u16) * 256 + lo as u16));
        } else {
            self.current_argument = None;
        }
        self.inhibit_pc = false;

        proof {
            assert(*self == Cpu::spec_fetched_op(*old(self), op));
        }
        crate::opcodes::execute(self, op);
        let ghost mid = *self;

        if !self.inhibit_pc {
            self.registers.pc = wadd16(self.registers.pc, info.size as u16);
        }

        self.machine_cycles = self.machine_cycles + info.cycles;
        Ok(self.machine_cycles)
    }
}

impl Default for Cpu {
    /// A powered-up core before `reset`: every register and latch zero,
    /// fresh memory, mode PowerUp.
    fn default() -> (r: Self)
        ensures
            r.wf(),
            r.registers == (Registers {
                a: 0,
                b: 0,
                c: 0,
                d: 0,
                e: 0,
                f: crate::flags::FlagRegister { z: false, n: false, h: false, c: false },
                h: 0,
                l: 0,
                pc: 0,
                sp: 0,
            }),
            r.machine_cycles == 0,
            r.current_instruction == 0,
            r.current_argument is None,
            !r.inhibit_pc,
            !r.interrupt_master_enable,
            !r.ime_delay,
            r.mode == RunningMode::PowerUp,
            forall|a: u16| r.memory.spec_read(a)
                == (if crate::memmap::UNUSABLE_START <= a <= crate::memmap::UNUSABLE_END {
                crate::memmap::UNUSABLE_BYTE
            } else {
                0u8
            }),
            r.memory.interrupts.request.spec_is_empty(),
            r.memory.interrupts.enabled.spec_is_empty(),
            r.memory.io.timer.internal_div == 0,
            r.memory.io.timer.internal_tima == 0,
    {
        Cpu {
            registers: Registers::default(),
            machine_cycles: 0,
            memory: MemoryMap::new(),
            current_instruction: 0,
            current_argument: None,
            inhibit_pc: false,
            interrupt_master_enable: false,
            ime_delay: false,
            mode: RunningMode::PowerUp,
        }
    }
}

/// A push followed by a pop is the identity: the word popped is the word
/// pushed, and after the pop SP is back at its pre-push value. The law
/// holds wherever the two pushed bytes land unmodified, which the two
/// `spec_write_effect` premises state; every plain RAM address satisfies
/// them.
pub proof fn lemma_push_pop_roundtrip(pre: Cpu, mid: Cpu, word: u16)
    requires
        pre.wf(),
        Cpu::spec_push_post(pre, mid, word),
        crate::memmap::spec_write_effect(
            spec_wsub16(pre.registers.sp, 1),
            (word / 256) as u8,
            spec_wsub16(pre.registers.sp, 1),
        ) == Some((word / 256) as u8),
        crate::memmap::spec_write_effect(
            spec_wsub16(pre.registers.sp, 2),
            (word % 256) as u8,
            spec_wsub16(pre.registers.sp, 2),
        ) == Some((word % 256) as u8),
    ensures
        mid.spec_pop_value() == word,
        spec_wadd16(mid.registers.sp, 2) == pre.registers.sp,
{
    let sp1 = spec_wsub16(pre.registers.sp, 1);
    let sp2 = spec_wsub16(pre.registers.sp, 2);
    assert(crate::memmap::spec_alias(sp1) != crate::memmap::spec_alias(sp2));
    assert(mid.memory.spec_read(sp2) == word % 256);
    assert(mid.memory.spec_read(sp1) == word / 256);
    assert(spec_wadd16(sp2, 1) == sp1);
}

/// Pushing AF and popping into AF restores A and F exactly: the flag byte
/// is stored with its low nibble already zero, so the mask POP AF applies
/// changes nothing. For an arbitrary pushed word, popping into AF keeps
/// the word modulo the low nibble of its flag half, which
/// `lemma_put_af_masks_low_nibble` states.
pub proof fn lemma_push_pop_af_roundtrip(pre: Cpu, mid: Cpu)
    requires
        pre.wf(),
        Cpu::spec_push_post(pre, mid, pre.registers.spec_af()),
        crate::memmap::spec_write_effect(
            spec_wsub16(pre.registers.sp, 1),
            (pre.registers.spec_af() / 256) as u8,
            spec_wsub16(pre.registers.sp, 1),
        ) == Some((pre.registers.spec_af() / 256) as u8),
        crate::memmap::spec_write_effect(
            spec_wsub16(pre.registers.sp, 2),
            (pre.registers.spec_af() % 256) as u8,
            spec_wsub16(pre.registers.sp, 2),
        ) == Some((pre.registers.spec_af() % 256) as u8),
    ensures
        (Registers {
            a: (mid.spec_pop_value() / 256) as u8,
            f: crate::flags::FlagRegister::spec_from_byte((mid.spec_pop_value() % 256) as u8),
            ..mid.registers
        }).spec_af() == pre.registers.spec_af(),
        (Registers {
            a: (mid.spec_pop_value() / 256) as u8,
            f: crate::flags::FlagRegister::spec_from_byte((mid.spec_pop_value() % 256) as u8),
            ..mid.registers
        }).a == pre.registers.a,
        (Registers {
            a: (mid.spec_pop_value() / 256) as u8,
            f: crate::flags::FlagRegister::spec_from_byte((mid.spec_pop_value() % 256) as u8),
            ..mid.registers
        }).f == pre.registers.f,
{
    lemma_push_pop_roundtrip(pre, mid, pre.registers.spec_af());
    crate::registers::lemma_af_roundtrip(pre.registers);
    crate::registers::lemma_pair_split(pre.registers.a, pre.registers.f.spec_value());
}

} // verus!
