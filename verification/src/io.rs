//! The input/output register block: the joypad register, the timer, the
//! two interrupt masks, and a flat byte store for the remaining slots.

use vstd::prelude::*;
use crate::interrupt::InterruptFlags;
use crate::joypad::Column;
use crate::joypad::Joypad;
use crate::timer::Timer;

verus! {

/// The register block at the top of the address space.
pub struct IO {
    pub timer: Timer,
    pub interrupt_flag: InterruptFlags,
    pub interrupt_enable: InterruptFlags,
    pub joypad: Joypad,
    pub io: Vec<u8>,
}

impl IO {
    /// The backing store keeps its fixed size and the timer stays well
    /// formed.
    pub open spec fn wf(self) -> bool {
        &&& self.io@.len() == 0x80
        &&& self.timer.wf()
    }

    /// The byte a read of an input/output register returns.
    pub open spec fn spec_read(self, address: u16) -> u8 {
        if address == 0xFF00 {
            self.joypad.spec_to_byte()
        } else if address == 0xFF04 {
            (self.timer.div / 256) as u8
        } else if address == 0xFF05 {
            self.timer.tima
        } else if address == 0xFF06 {
            self.timer.tma
        } else if address == 0xFF07 {
            self.timer.tac
        } else if address == 0xFF0F {
            self.interrupt_flag.spec_to_byte()
        } else if 0xFF10 <= address <= 0xFF3F {
            0
        } else if address == 0xFFFF {
            self.interrupt_enable.spec_to_byte()
        } else {
            self.io@[address - 0xFF00]
        }
    }

    /// Relates the block before and after a write: the joypad register
    /// selects a column, the timer registers decode, the masks load their
    /// five bits, the serial, sound and palette-expansion slots drop the
    /// byte, and the remaining slots store it.
    pub open spec fn spec_write_rel(pre: IO, post: IO, address: u16, value: u8) -> bool {
        &&& (address == 0xFF00 ==> post == (IO {
            joypad: (Joypad {
                column: if (value / 16) % 2 == 0 {
                    Column::Directions
                } else if (value / 32) % 2 == 0 {
                    Column::Actions
                } else {
                    Column::Neither
                },
                ..pre.joypad
            }),
            ..pre
        }))
        &&& (0xFF01 <= address <= 0xFF02 ==> post == pre)
        &&& (address == 0xFF04 ==> post == (IO { timer: (Timer { div: 0, ..pre.timer }), ..pre }))
        &&& (address == 0xFF05 ==> post == (IO {
            timer: (Timer { tima: value, ..pre.timer }),
            ..pre
        }))
        &&& (address == 0xFF06 ==> post == (IO {
            timer: (Timer { tma: value, ..pre.timer }),
            ..pre
        }))
        &&& (address == 0xFF07 ==> post == (IO {
            timer: (Timer { tac: value, ..pre.timer }),
            ..pre
        }))
        &&& (address == 0xFF0F ==> post == (IO {
            interrupt_flag: InterruptFlags::spec_from_byte(value),
            ..pre
        }))
        &&& (0xFF10 <= address <= 0xFF3F ==> post == pre)
        &&& (0xFF51 <= address <= 0xFF7F ==> post == pre)
        &&& (address == 0xFFFF ==> post == (IO {
            interrupt_enable: InterruptFlags::spec_from_byte(value),
            ..pre
        }))
        &&& (address == 0xFF03 || 0xFF08 <= address <= 0xFF0E || 0xFF40 <= address <= 0xFF50 ==> {
            &&& post == (IO { io: post.io, ..pre })
            &&& post.io@ == pre.io@.update(address - 0xFF00, value)
        })
    }

    /// A fresh block: reset timer, cleared masks, no buttons pressed and
    /// a zeroed backing store.
    pub fn new() -> (r: IO)
        ensures
            r.wf(),
            r.timer == (Timer { div: 0xAC00, tima: 0, tma: 0, tac: 0, cycles: 0 }),
            r.interrupt_flag == InterruptFlags::spec_from_byte(0),
            r.interrupt_enable == InterruptFlags::spec_from_byte(0),
            forall|j: int| 0 <= j < 0x80 ==> r.io@[j] == 0,
    {
        IO {
            timer: Timer::new(),
            interrupt_flag: InterruptFlags::new(),
            interrupt_enable: InterruptFlags::new(),
            joypad: Joypad::new(),
            io: vec![0u8; 0x80],
        }
    }

    /// Reads an input/output register.
    pub fn io_read(&mut self, address: u16) -> (r: u8)
        requires
            old(self).wf(),
            0xFF00 <= address,
            address <= 0xFF7F || address == 0xFFFF,
        ensures
            *final(self) == *old(self),
            r == old(self).spec_read(address),
    {
        if address == 0xFF00 {
            self.joypad.to_byte()
        } else if 0xFF04 <= address && address <= 0xFF07 {
            self.timer.timer_read(address)
        } else if 0xFF10 <= address && address <= 0xFF3F {
            0
        } else if address == 0xFF0F {
            self.interrupt_flag.to_byte()
        } else if address == 0xFFFF {
            self.interrupt_enable.to_byte()
        } else {
            self.io[(address - 0xFF00) as usize]
        }
    }

    /// Writes an input/output register.
    pub fn io_write(&mut self, address: u16, value: u8)
        requires
            old(self).wf(),
            0xFF00 <= address,
            address <= 0xFF7F || address == 0xFFFF,
        ensures
            final(self).wf(),
            IO::spec_write_rel(*old(self), *final(self), address, value),
    {
        if address == 0xFF00 {
            self.joypad.write_column(value);
        } else if 0xFF04 <= address && address <= 0xFF07 {
            self.timer.timer_write(address, value);
        } else if address == 0xFF0F {
            self.interrupt_flag.from_byte(value);
        } else if address == 0xFFFF {
            self.interrupt_enable.from_byte(value);
        } else if address == 0xFF03 || (0xFF08 <= address && address <= 0xFF0E) || (0xFF40
            <= address && address <= 0xFF50) {
            self.io[(address - 0xFF00) as usize] = value;
        }
    }
}

} // verus!
