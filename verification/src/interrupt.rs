//! The two 5-bit interrupt masks, IF (pending) and IE (enabled):
//! bit 0 VBlank, bit 1 LCDSTAT, bit 2 Timer, bit 3 Serial, bit 4 Joypad.

use vstd::prelude::*;

verus! {

/// One 5-bit interrupt mask; IF and IE are both values of this type.
#[derive(Clone, Copy, PartialEq, Eq, Structural, Debug)]
pub struct InterruptFlags {
    pub vblank: bool,
    pub lcdstat: bool,
    pub timer: bool,
    pub serial: bool,
    pub joypad: bool,
}

impl InterruptFlags {
    /// The byte a read of the mask returns: the five bits in order, with
    /// the three unused high bits reading as 1.
    pub open spec fn spec_to_byte(self) -> u8 {
        (0xE0 + (if self.vblank { 0x01int } else { 0 }) + (if self.lcdstat { 0x02int } else { 0 })
            + (if self.timer { 0x04int } else { 0 }) + (if self.serial { 0x08int } else { 0 })
            + (if self.joypad { 0x10int } else { 0 })) as u8
    }

    /// The mask decoded from the low five bits of a byte.
    pub open spec fn spec_from_byte(value: u8) -> InterruptFlags {
        InterruptFlags {
            vblank: value % 2 == 1,
            lcdstat: (value / 2) % 2 == 1,
            timer: (value / 4) % 2 == 1,
            serial: (value / 8) % 2 == 1,
            joypad: (value / 16) % 2 == 1,
        }
    }

    /// True when any of the five bits is set.
    pub open spec fn spec_any(self) -> bool {
        self.vblank || self.lcdstat || self.timer || self.serial || self.joypad
    }

    /// A mask with every bit clear.
    pub fn new() -> (r: InterruptFlags)
        ensures
            r == (InterruptFlags {
                vblank: false,
                lcdstat: false,
                timer: false,
                serial: false,
                joypad: false,
            }),
    {
        InterruptFlags { vblank: false, lcdstat: false, timer: false, serial: false, joypad: false }
    }

    /// Encodes the mask as a byte; the unused high bits read as 1.
    pub fn to_byte(&self) -> (r: u8)
        ensures
            r == self.spec_to_byte(),
    {
        0xE0 + (if self.vblank { 0x01u8 } else { 0 }) + (if self.lcdstat { 0x02u8 } else { 0 })
            + (if self.timer { 0x04u8 } else { 0 }) + (if self.serial { 0x08u8 } else { 0 })
            + (if self.joypad { 0x10u8 } else { 0 })
    }

    /// Replaces the mask with the low five bits of a byte.
    pub fn from_byte(&mut self, value: u8)
        ensures
            *final(self) == InterruptFlags::spec_from_byte(value),
    {
        self.vblank = value % 2 == 1;
        self.lcdstat = (value / 2) % 2 == 1;
        self.timer = (value / 4) % 2 == 1;
        self.serial = (value / 8) % 2 == 1;
        self.joypad = (value / 16) % 2 == 1;
    }
}

} // verus!
