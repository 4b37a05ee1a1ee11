//! The processor: the register file, the bus it owns, the fetch loop,
//! the stack, and the interrupt dispatch between instructions.

use vstd::prelude::*;
use crate::bus::Bus;
use crate::bus::LCDSTAT_VECTOR;
use crate::bus::SERIAL_VECTOR;
use crate::bus::TIMER_VECTOR;
use crate::bus::VBLANK_VECTOR;
use crate::bus::JOYPAD_VECTOR;
use crate::instructions::execute_opcode;
use crate::cb_instructions::execute_cb_opcode;
use crate::instructions::spec_instruction_rel;
use crate::cb_instructions::spec_cb_instruction_rel;
use crate::interrupt::InterruptFlags;
use crate::io::IO;
use crate::registers::Registers;
use crate::timer::wadd16;
use crate::timer::wsub16;

verus! {

/// True of the opcode bytes the decoder accepts: every documented opcode
/// but STOP, whose behaviour this core does not model, and the prefix
/// byte, which the fetch loop handles itself.
pub open spec fn spec_opcode_defined(op: u8) -> bool {
    !(op == 0x10 || op == 0xD3 || op == 0xDB || op == 0xDD || op == 0xE3 || op == 0xE4 || op
        == 0xEB || op == 0xEC || op == 0xED || op == 0xF4 || op == 0xFC || op == 0xFD)
}

/// Relates the bus before and after a 16-bit push with the stack
/// pointer at `sp`: the high byte lands one below `sp`, the low byte
/// one further down, each through the decoder.
pub open spec fn spec_push_word_rel(pre: Bus, post: Bus, sp: u16, value: u16) -> bool {
    exists|mid: Bus|
        #[trigger] Bus::spec_write_rel(pre, mid, wsub16(sp, 1), (value / 256) as u8)
            && Bus::spec_write_rel(mid, post, wsub16(sp, 2), (value % 256) as u8)
}

/// The processor state: the register file, the bus with every
/// peripheral, the halt latch, and the master interrupt enable.
pub struct CPU {
    pub registers: Registers,
    pub bus: Bus,
    pub is_halted: bool,
    pub interrupt_enabled: bool,
}

impl CPU {
    /// The register file and every peripheral are well formed.
    pub open spec fn wf(self) -> bool {
        &&& self.registers.wf()
        &&& self.bus.wf()
    }

    /// A fresh processor around a ROM image: registers cleared, the
    /// program counter at the cartridge entry point (the boot overlay is
    /// skipped), the stack pointer at the top of high RAM, interrupts
    /// enabled.
    pub fn new(data: &[u8]) -> (r: CPU)
        requires
            data@.len() >= 0x8000,
        ensures
            r.wf(),
            r.registers == (Registers {
                a: 0,
                b: 0,
                c: 0,
                d: 0,
                e: 0,
                h: 0,
                l: 0,
                f: 0,
                pc: 0x0100,
                sp: 0xFFFE,
            }),
            !r.is_halted,
            r.interrupt_enabled,
            r.bus.cart.rom@ == data@,
            r.bus.io.interrupt_flag == crate::interrupt::InterruptFlags::spec_from_byte(0),
            r.bus.io.interrupt_enable == crate::interrupt::InterruptFlags::spec_from_byte(0),
            r.bus.io.timer.div == 0xAC00,
            r.bus.gpu.spec_lcdc() == 0x91,
            r.bus.gpu.line == 0,
    {
        let registers = Registers::new();
        let bus = Bus::new(data);
        CPU { registers, bus, is_halted: false, interrupt_enabled: true }
    }

    /// Fetches the byte at the program counter and moves past it.
    pub fn fetch_byte(&mut self) -> (value: u8)
        requires
            old(self).wf(),
        ensures
            final(self).wf(),
            value == old(self).bus.spec_read(old(self).registers.pc),
            final(self).registers == (Registers {
                pc: wadd16(old(self).registers.pc, 1),
                ..old(self).registers
            }),
            final(self).bus == old(self).bus,
            final(self).is_halted == old(self).is_halted,
            final(self).interrupt_enabled == old(self).interrupt_enabled,
    {
        let value = self.bus.bus_read(self.registers.pc);
        self.registers.pc = self.registers.pc.wrapping_add(1);
        value
    }

    /// Fetches the 16-bit word at the program counter, low byte first,
    /// and moves past it.
    pub fn fetch_word(&mut self) -> (value: u16)
        requires
            old(self).wf(),
        ensures
            final(self).wf(),
            value == crate::registers::pair(
                old(self).bus.spec_read(wadd16(old(self).registers.pc, 1)),
                old(self).bus.spec_read(old(self).registers.pc),
            ),
            final(self).registers == (Registers {
                pc: wadd16(old(self).registers.pc, 2),
                ..old(self).registers
            }),
            final(self).bus == old(self).bus,
            final(self).is_halted == old(self).is_halted,
            final(self).interrupt_enabled == old(self).interrupt_enabled,
    {
        let lsb = self.fetch_byte() as u16;
        let msb = self.fetch_byte() as u16;
        msb * 256 + lsb
    }

    /// Pushes one byte: the stack pointer moves down (wrapping at zero)
    /// and the byte is stored there.
    pub fn push_stack(&mut self, value: u8)
        requires
            old(self).wf(),
        ensures
            final(self).wf(),
            final(self).registers == (Registers {
                sp: crate::timer::wsub16(old(self).registers.sp, 1),
                ..old(self).registers
            }),
            Bus::spec_write_rel(
                old(self).bus,
                final(self).bus,
                crate::timer::wsub16(old(self).registers.sp, 1),
                value,
            ),
            final(self).is_halted == old(self).is_halted,
            final(self).interrupt_enabled == old(self).interrupt_enabled,
    {
        self.registers.sp = self.registers.sp.wrapping_sub(1);
        self.bus.bus_write(self.registers.sp, value);
    }

    /// Pops one byte: the byte at the stack pointer is read and the
    /// pointer moves up (wrapping at the top).
    pub fn pop_stack(&mut self) -> (value: u8)
        requires
            old(self).wf(),
        ensures
            final(self).wf(),
            value == old(self).bus.spec_read(old(self).registers.sp),
            final(self).registers == (Registers {
                sp: wadd16(old(self).registers.sp, 1),
                ..old(self).registers
            }),
            final(self).bus == old(self).bus,
            final(self).is_halted == old(self).is_halted,
            final(self).interrupt_enabled == old(self).interrupt_enabled,
    {
        let value = self.bus.bus_read(self.registers.sp);
        self.registers.sp = self.registers.sp.wrapping_add(1);
        value
    }

    /// Pushes a 16-bit word, high byte first, so the low byte ends up at
    /// the lower address.
    pub fn push_stack_word(&mut self, value: u16)
        requires
            old(self).wf(),
        ensures
            final(self).wf(),
            final(self).registers == (Registers {
                sp: crate::timer::wsub16(old(self).registers.sp, 2),
                ..old(self).registers
            }),
            spec_push_word_rel(old(self).bus, final(self).bus, old(self).registers.sp, value),
            final(self).is_halted == old(self).is_halted,
            final(self).interrupt_enabled == old(self).interrupt_enabled,
    {
        let high_byte = (value / 256) as u8;
        let low_byte = (value % 256) as u8;
        self.push_stack(high_byte);
        let ghost mid = self.bus;
        self.push_stack(low_byte);
        proof {
            assert(Bus::spec_write_rel(
                old(self).bus,
                mid,
                crate::timer::wsub16(old(self).registers.sp, 1),
                (value / 256) as u8,
            ));
        }
    }

    /// Pops a 16-bit word, low byte first.
    pub fn pop_stack_word(&mut self) -> (value: u16)
        requires
            old(self).wf(),
        ensures
            final(self).wf(),
            value == crate::registers::pair(
                old(self).bus.spec_read(wadd16(old(self).registers.sp, 1)),
                old(self).bus.spec_read(old(self).registers.sp),
            ),
            final(self).registers == (Registers {
                sp: wadd16(old(self).registers.sp, 2),
                ..old(self).registers
            }),
            final(self).bus == old(self).bus,
            final(self).is_halted == old(self).is_halted,
            final(self).interrupt_enabled == old(self).interrupt_enabled,
    {
        let low_byte = self.pop_stack() as u16;
        let high_byte = self.pop_stack() as u16;
        high_byte * 256 + low_byte
    }

    /// Vectors to an interrupt handler: the master enable drops, the
    /// program counter is pushed, control moves to the handler, and the
    /// bus advances by the 12 machine cycles the dispatch costs.
    fn interrupt(&mut self, location: u16)
        requires
            old(self).wf(),
        ensures
            final(self).wf(),
            !final(self).interrupt_enabled,
            final(self).registers == (Registers {
                pc: location,
                sp: wsub16(old(self).registers.sp, 2),
                ..old(self).registers
            }),
            final(self).is_halted == old(self).is_halted,
            exists|pushed: Bus|
                #[trigger] spec_push_word_rel(
                    old(self).bus,
                    pushed,
                    old(self).registers.sp,
                    old(self).registers.pc,
                ) && Bus::spec_step_rel(pushed, final(self).bus, 12),
    {
        self.interrupt_enabled = false;
        let pc = self.registers.pc;
        self.push_stack_word(pc);
        let ghost pushed = self.bus;
        self.registers.pc = location;
        self.bus.step(12);
        proof {
            assert(spec_push_word_rel(
                old(self).bus,
                pushed,
                old(self).registers.sp,
                old(self).registers.pc,
            ));
        }
    }

    /// True when the next fetched opcode is one the decoder accepts, so
    /// a step cannot hit an undefined instruction.
    pub fn next_opcode_defined(&mut self) -> (r: bool)
        requires
            old(self).wf(),
        ensures
            *final(self) == *old(self),
            r == spec_opcode_defined(old(self).bus.spec_read(old(self).registers.pc)),
    {
        let op = self.bus.bus_read(self.registers.pc);
        !(op == 0x10 || op == 0xD3 || op == 0xDB || op == 0xDD || op == 0xE3 || op == 0xE4 || op
            == 0xEB || op == 0xEC || op == 0xED || op == 0xF4 || op == 0xFC || op == 0xFD)
    }

    /// One full step: fetch and execute one instruction (or idle for
    /// four cycles while halted with nothing pending), advance the timer
    /// and the pixel unit by exactly the cycles the instruction took,
    /// wake from halt when something becomes pending, and dispatch the
    /// highest-priority enabled pending interrupt. Returns the machine
    /// cycles the step accounted for; a dispatched interrupt adds 20.
    pub fn step(&mut self) -> (r: u8)
        requires
            old(self).wf(),
            old(self).is_halted && !old(self).bus.spec_has_interrupt() || spec_opcode_defined(
                old(self).bus.spec_read(old(self).registers.pc),
            ),
        ensures
            final(self).wf(),
            4 <= r <= 44,
            CPU::spec_step_rel(*old(self), *final(self), r),
    {
        let mut cycles: u8;
        if self.is_halted && !self.bus.has_interrupt() {
            cycles = 4;
            self.bus.step(cycles);
            return cycles;
        }
        if self.is_halted {
            self.is_halted = false;
        }
        let mut instruction_byte = self.fetch_byte();
        if instruction_byte == 0xCB {
            instruction_byte = self.fetch_byte();
            cycles = execute_cb_opcode(self, instruction_byte);
        } else {
            cycles = execute_opcode(self, instruction_byte);
        }
        let ghost executed = *self;
        let ghost n = cycles;
        self.bus.step(cycles);
        let ghost stepped = self.bus;
        if self.bus.has_interrupt() {
            self.is_halted = false;
        }
        let ghost woken = *self;
        let interrupted = self.service_interrupt();
        if interrupted {
            cycles = cycles + 20;
        }
        proof {
            assert(woken == (CPU {
                bus: stepped,
                is_halted: executed.is_halted && !stepped.spec_has_interrupt(),
                ..executed
            }));
            assert(Bus::spec_step_rel(executed.bus, stepped, n));
        }
        cycles
    }

    /// Relates the processor before and after dispatching one interrupt
    /// to `vector`, with the pending mask already reduced to `cleared`:
    /// the master enable drops, the pre-dispatch program counter is
    /// pushed, control moves to the handler, and the bus advances by the
    /// 12 machine cycles the dispatch costs.
    pub open spec fn spec_dispatch_rel(
        pre: CPU,
        post: CPU,
        vector: u16,
        cleared: InterruptFlags,
    ) -> bool {
        &&& !post.interrupt_enabled
        &&& post.is_halted == pre.is_halted
        &&& post.registers == (Registers {
            pc: vector,
            sp: wsub16(pre.registers.sp, 2),
            ..pre.registers
        })
        &&& exists|pushed: Bus|
            #[trigger] spec_push_word_rel(
                (Bus { io: (IO { interrupt_flag: cleared, ..pre.bus.io }), ..pre.bus }),
                pushed,
                pre.registers.sp,
                pre.registers.pc,
            ) && Bus::spec_step_rel(pushed, post.bus, 12)
    }

    /// Relates the processor before and after the interrupt check that
    /// ends a step: with the master enable off or nothing both enabled
    /// and pending, nothing moves; otherwise exactly the highest-priority
    /// enabled pending interrupt is dispatched, in the fixed order
    /// vertical blank, LCD status, timer, serial, joypad, and only its
    /// pending bit clears.
    pub open spec fn spec_service_rel(pre: CPU, post: CPU, serviced: bool) -> bool {
        let ie = pre.bus.io.interrupt_enable;
        let pending = pre.bus.io.interrupt_flag;
        let vb = ie.vblank && pending.vblank;
        let lc = ie.lcdstat && pending.lcdstat;
        let tm = ie.timer && pending.timer;
        let se = ie.serial && pending.serial;
        let jo = ie.joypad && pending.joypad;
        &&& (!pre.interrupt_enabled || !pre.bus.spec_has_interrupt() ==> post == pre && !serviced)
        &&& (pre.interrupt_enabled && pre.bus.spec_has_interrupt() ==> serviced)
        &&& (pre.interrupt_enabled && vb ==> CPU::spec_dispatch_rel(
            pre,
            post,
            VBLANK_VECTOR,
            (InterruptFlags { vblank: false, ..pending }),
        ))
        &&& (pre.interrupt_enabled && !vb && lc ==> CPU::spec_dispatch_rel(
            pre,
            post,
            LCDSTAT_VECTOR,
            (InterruptFlags { lcdstat: false, ..pending }),
        ))
        &&& (pre.interrupt_enabled && !vb && !lc && tm ==> CPU::spec_dispatch_rel(
            pre,
            post,
            TIMER_VECTOR,
            (InterruptFlags { timer: false, ..pending }),
        ))
        &&& (pre.interrupt_enabled && !vb && !lc && !tm && se ==> CPU::spec_dispatch_rel(
            pre,
            post,
            SERIAL_VECTOR,
            (InterruptFlags { serial: false, ..pending }),
        ))
        &&& (pre.interrupt_enabled && !vb && !lc && !tm && !se && jo ==> CPU::spec_dispatch_rel(
            pre,
            post,
            JOYPAD_VECTOR,
            (InterruptFlags { joypad: false, ..pending }),
        ))
    }

    /// Relates the processor before and after one full step, with `r`
    /// the machine cycles the step reports: a halted processor with
    /// nothing pending idles for four cycles; otherwise the fetched
    /// opcode's instruction executes (through the opcode relations), the
    /// bus advances by exactly the instruction's cycles, a pending
    /// interrupt ends the halt, and the interrupt check runs last,
    /// adding 20 reported cycles when it dispatches.
    pub open spec fn spec_step_rel(pre: CPU, post: CPU, r: u8) -> bool {
        if pre.is_halted && !pre.bus.spec_has_interrupt() {
            &&& r == 4
            &&& post.registers == pre.registers
            &&& post.is_halted == pre.is_halted
            &&& post.interrupt_enabled == pre.interrupt_enabled
            &&& Bus::spec_step_rel(pre.bus, post.bus, 4)
        } else {
            let op = pre.bus.spec_read(pre.registers.pc);
            exists|executed: CPU, n: u8, stepped: Bus|
                {
                    &&& (if op == 0xCB {
                        spec_cb_instruction_rel(
                            (CPU {
                                registers: (Registers {
                                    pc: wadd16(pre.registers.pc, 2),
                                    ..pre.registers
                                }),
                                is_halted: false,
                                ..pre
                            }),
                            executed,
                            pre.bus.spec_read(wadd16(pre.registers.pc, 1)),
                            n,
                        )
                    } else {
                        spec_instruction_rel(
                            (CPU {
                                registers: (Registers {
                                    pc: wadd16(pre.registers.pc, 1),
                                    ..pre.registers
                                }),
                                is_halted: false,
                                ..pre
                            }),
                            executed,
                            op,
                            n,
                        )
                    })
                    &&& #[trigger] Bus::spec_step_rel(executed.bus, stepped, n)
                    &&& ({
                        let woken = CPU {
                            bus: stepped,
                            is_halted: executed.is_halted && !stepped.spec_has_interrupt(),
                            ..executed
                        };
                        CPU::spec_service_rel(woken, post, true) && r == n + 20
                            || CPU::spec_service_rel(woken, post, false) && r == n
                    })
                }
        }
    }

    /// Dispatches the highest-priority interrupt that is both enabled
    /// and pending, when the master enable allows it: its pending bit
    /// clears, the master enable drops, the program counter is pushed
    /// and set to the fixed handler address.
    #[verifier::rlimit(100)]
    #[verifier::spinoff_prover]
    fn service_interrupt(&mut self) -> (r: bool)
        requires
            old(self).wf(),
        ensures
            final(self).wf(),
            CPU::spec_service_rel(*old(self), *final(self), r),
    {
        if !self.interrupt_enabled {
            return false;
        }
        if self.bus.io.interrupt_enable.vblank && self.bus.io.interrupt_flag.vblank {
            self.bus.io.interrupt_flag.vblank = false;
            self.interrupt(VBLANK_VECTOR);
            true
        } else if self.bus.io.interrupt_enable.lcdstat && self.bus.io.interrupt_flag.lcdstat {
            self.bus.io.interrupt_flag.lcdstat = false;
            self.interrupt(LCDSTAT_VECTOR);
            true
        } else if self.bus.io.interrupt_enable.timer && self.bus.io.interrupt_flag.timer {
            self.bus.io.interrupt_flag.timer = false;
            self.interrupt(TIMER_VECTOR);
            true
        } else if self.bus.io.interrupt_enable.serial && self.bus.io.interrupt_flag.serial {
            self.bus.io.interrupt_flag.serial = false;
            self.interrupt(SERIAL_VECTOR);
            true
        } else if self.bus.io.interrupt_enable.joypad && self.bus.io.interrupt_flag.joypad {
            self.bus.io.interrupt_flag.joypad = false;
            self.interrupt(JOYPAD_VECTOR);
            true
        } else {
            false
        }
    }
}

} // verus!
