//! The three flat RAM banks: 8 KiB work RAM, 8 KiB external RAM and
//! 127 bytes of high RAM, each addressed through its window of the 16-bit
//! address space.

use vstd::prelude::*;

verus! {

/// True of the addresses that one of the three RAM banks backs: external
/// RAM at 0xA000-0xBFFF, work RAM at 0xC000-0xDFFF, high RAM at
/// 0xFF80-0xFFFE.
pub open spec fn ram_backed(address: u16) -> bool {
    (0xA000 <= address <= 0xDFFF) || (0xFF80 <= address <= 0xFFFE)
}

/// The three RAM banks.
pub struct RAM {
    pub wram: Vec<u8>,
    pub hram: Vec<u8>,
    pub eram: Vec<u8>,
}

impl RAM {
    /// The banks always keep their fixed sizes.
    pub open spec fn wf(self) -> bool {
        &&& self.wram@.len() == 0x2000
        &&& self.hram@.len() == 0x80
        &&& self.eram@.len() == 0x2000
    }

    /// The byte a RAM-backed address holds.
    pub open spec fn spec_read(self, address: u16) -> u8 {
        if 0xA000 <= address <= 0xBFFF {
            self.eram@[address - 0xA000]
        } else if 0xC000 <= address <= 0xDFFF {
            self.wram@[address - 0xC000]
        } else {
            self.hram@[address - 0xFF80]
        }
    }

    /// Relates the banks before and after storing one byte at a RAM-backed
    /// address: the backing bank gains the byte, the two others are kept.
    pub open spec fn spec_write_rel(pre: RAM, post: RAM, address: u16, value: u8) -> bool {
        if 0xA000 <= address <= 0xBFFF {
            &&& post == (RAM { eram: post.eram, ..pre })
            &&& post.eram@ == pre.eram@.update(address - 0xA000, value)
        } else if 0xC000 <= address <= 0xDFFF {
            &&& post == (RAM { wram: post.wram, ..pre })
            &&& post.wram@ == pre.wram@.update(address - 0xC000, value)
        } else {
            &&& post == (RAM { hram: post.hram, ..pre })
            &&& post.hram@ == pre.hram@.update(address - 0xFF80, value)
        }
    }

    /// Fresh, zero-initialised banks.
    pub fn new() -> (r: RAM)
        ensures
            r.wf(),
            forall|a: u16| ram_backed(a) ==> r.spec_read(a) == 0,
    {
        RAM { wram: vec![0u8; 0x2000], hram: vec![0u8; 0x80], eram: vec![0u8; 0x2000] }
    }

    /// Reads a byte from the bank that backs the address.
    pub fn ram_read(&mut self, address: u16) -> (r: u8)
        requires
            old(self).wf(),
            ram_backed(address),
        ensures
            *final(self) == *old(self),
            r == old(self).spec_read(address),
    {
        if 0xA000 <= address && address <= 0xBFFF {
            self.eram[(address - 0xA000) as usize]
        } else if 0xC000 <= address && address <= 0xDFFF {
            self.wram[(address - 0xC000) as usize]
        } else {
            self.hram[(address - 0xFF80) as usize]
        }
    }

    /// Stores a byte in the bank that backs the address.
    pub fn ram_write(&mut self, address: u16, value: u8)
        requires
            old(self).wf(),
            ram_backed(address),
        ensures
            final(self).wf(),
            RAM::spec_write_rel(*old(self), *final(self), address, value),
            final(self).spec_read(address) == value,
    {
        if 0xA000 <= address && address <= 0xBFFF {
            self.eram[(address - 0xA000) as usize] = value;
        } else if 0xC000 <= address && address <= 0xDFFF {
            self.wram[(address - 0xC000) as usize] = value;
        } else {
            self.hram[(address - 0xFF80) as usize] = value;
        }
    }
}

} // verus!
