//! The cartridge: a read-only code and data store of at least 32 KiB,
//! optionally overlaid by a small boot program over the low addresses until
//! the program disables the overlay.

use vstd::prelude::*;
use vstd::slice::slice_to_vec;

verus! {

/// The cartridge ROM, with an optional boot overlay of at most 256 bytes.
pub struct Cartridge {
    pub rom: Vec<u8>,
    pub boot_rom: Option<Vec<u8>>,
}

impl Cartridge {
    /// The ROM always holds at least the full 32 KiB window, and a boot
    /// overlay never exceeds 256 bytes.
    pub open spec fn wf(self) -> bool {
        &&& self.rom@.len() >= 0x8000
        &&& match self.boot_rom {
            Some(b) => b@.len() <= 0x100,
            None => true,
        }
    }

    /// The byte a ROM address holds: a byte of the boot overlay while one
    /// is present and covers the address, else the cartridge byte itself.
    pub open spec fn spec_read(self, address: u16) -> u8 {
        match self.boot_rom {
            Some(b) => if address < b@.len() {
                b@[address as int]
            } else {
                self.rom@[address as int]
            },
            None => self.rom@[address as int],
        }
    }

    /// Wraps a ROM image without a boot overlay.
    pub fn new(data: &[u8]) -> (r: Cartridge)
        requires
            data@.len() >= 0x8000,
        ensures
            r.wf(),
            r.rom@ == data@,
            r.boot_rom is None,
    {
        Cartridge { rom: slice_to_vec(data), boot_rom: None }
    }

    /// Wraps a ROM image together with a boot overlay of at most 256 bytes,
    /// mapped over the low addresses until disabled.
    pub fn new_with_boot_rom(data: &[u8], boot: &[u8]) -> (r: Cartridge)
        requires
            data@.len() >= 0x8000,
            boot@.len() <= 0x100,
        ensures
            r.wf(),
            r.rom@ == data@,
            r.boot_rom matches Some(b) && b@ == boot@,
    {
        Cartridge { rom: slice_to_vec(data), boot_rom: Some(slice_to_vec(boot)) }
    }

    /// Reads a byte from the ROM window, through the boot overlay while it
    /// is active.
    pub fn cart_read(&self, address: u16) -> (r: u8)
        requires
            self.wf(),
            address < 0x8000,
        ensures
            r == self.spec_read(address),
    {
        match &self.boot_rom {
            Some(b) => {
                if (address as usize) < b.len() {
                    b[address as usize]
                } else {
                    self.rom[address as usize]
                }
            },
            None => self.rom[address as usize],
        }
    }

    /// Accepts and discards a write: the plain ROMs modelled here have no
    /// banking registers, so stores into the ROM window change nothing.
    pub fn cart_write(&mut self, address: u16, value: u8)
        ensures
            *final(self) == *old(self),
    {
    }

    /// Removes the boot overlay permanently; the bus calls this when the
    /// program writes to the overlay-disable register.
    pub fn disable_boot_rom(&mut self)
        ensures
            *final(self) == (Cartridge { boot_rom: None, ..*old(self) }),
    {
        self.boot_rom = None;
    }
}

} // verus!
