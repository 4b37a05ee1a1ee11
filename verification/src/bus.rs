//! The system bus: the single address decoder through which the CPU
//! reaches the cartridge, the RAM banks, the pixel unit and the
//! input/output registers, the 16-bit composite accesses, the OAM
//! transfer, and the clock fan-out to the timer and the pixel unit.

use vstd::prelude::*;
use crate::cart::Cartridge;
use crate::gpu::GPU;
use crate::gpu::InterruptRequest;
use crate::interrupt::InterruptFlags;
use crate::io::IO;
use crate::ram::RAM;
use crate::ram::ram_backed;
use crate::registers::pair;
use crate::timer::Timer;
use crate::timer::spec_period;
use crate::timer::spec_tima_after;
use crate::timer::spec_tima_fired;
use crate::timer::spec_timer_enabled;
use crate::timer::wadd16;

verus! {

/// The handler address of the vertical-blank interrupt.
pub const VBLANK_VECTOR: u16 = 0x40;

/// The handler address of the LCD status interrupt.
pub const LCDSTAT_VECTOR: u16 = 0x48;

/// The handler address of the timer interrupt.
pub const TIMER_VECTOR: u16 = 0x50;

/// The handler address of the serial interrupt.
pub const SERIAL_VECTOR: u16 = 0x58;

/// The handler address of the joypad interrupt.
pub const JOYPAD_VECTOR: u16 = 0x60;

/// The system bus and every peripheral it owns.
pub struct Bus {
    pub cart: Cartridge,
    pub ram: RAM,
    pub io: IO,
    pub gpu: GPU,
}

impl Bus {
    /// Every owned peripheral is well formed.
    pub open spec fn wf(self) -> bool {
        &&& self.cart.wf()
        &&& self.ram.wf()
        &&& self.io.wf()
        &&& self.gpu.wf()
    }

    /// The byte a read of any address returns: the strict decoder covers
    /// the whole 16-bit space; reads of the echo region return the work
    /// RAM bytes, and reads of the unusable region return 0xFF.
    pub open spec fn spec_read(self, address: u16) -> u8 {
        if address < 0x8000 {
            self.cart.spec_read(address)
        } else if address <= 0x9FFF {
            self.gpu.spec_read(address)
        } else if address <= 0xDFFF {
            self.ram.spec_read(address)
        } else if address <= 0xFDFF {
            self.ram.spec_read((address - 0x2000) as u16)
        } else if address <= 0xFE9F {
            self.gpu.spec_read(address)
        } else if address <= 0xFEFF {
            0xFF
        } else if 0xFF40 <= address <= 0xFF4B {
            self.gpu.spec_read(address)
        } else if address <= 0xFF7F {
            self.io.spec_read(address)
        } else if address <= 0xFFFE {
            self.ram.spec_read(address)
        } else {
            self.io.spec_read(address)
        }
    }

    /// Relates the bus before and after a write of one byte: the decoder
    /// routes the byte to the owning peripheral; stores into the ROM
    /// window, the echo region, the unusable region and the dropped
    /// input/output slots change nothing; a store to the transfer
    /// register copies 160 bytes into OAM; and a store to the overlay
    /// register removes the boot overlay.
    pub open spec fn spec_write_rel(pre: Bus, post: Bus, address: u16, value: u8) -> bool {
        &&& (address < 0x8000 ==> post == pre)
        &&& ((0x8000 <= address <= 0x9FFF) || (0xFE00 <= address <= 0xFE9F) || (0xFF40 <= address
            <= 0xFF4B && address != 0xFF46) ==> {
            &&& post == (Bus { gpu: post.gpu, ..pre })
            &&& GPU::spec_write_rel(pre.gpu, post.gpu, address, value)
        })
        &&& (ram_backed(address) ==> {
            &&& post == (Bus { ram: post.ram, ..pre })
            &&& RAM::spec_write_rel(pre.ram, post.ram, address, value)
        })
        &&& (0xE000 <= address <= 0xFDFF ==> post == pre)
        &&& (0xFEA0 <= address <= 0xFEFF ==> post == pre)
        &&& (address == 0xFF46 ==> {
            &&& post == (Bus { gpu: post.gpu, ..pre })
            &&& post.gpu == (GPU { oam: post.gpu.oam, object_data: post.gpu.object_data, ..pre.gpu })
            &&& post.gpu.oam@.len() == 0xA0
            &&& forall|k: int|
                0 <= k < 0xA0 ==> post.gpu.oam@[k] == pre.spec_read((value * 256 + k) as u16)
        })
        &&& (address == 0xFF50 ==> post == (Bus {
            cart: (Cartridge { boot_rom: None, ..pre.cart }),
            ..pre
        }))
        &&& (0xFF00 <= address <= 0xFF7F && !(0xFF40 <= address <= 0xFF4B) && address != 0xFF50
            || address == 0xFFFF ==> {
            &&& post == (Bus { io: post.io, ..pre })
            &&& IO::spec_write_rel(pre.io, post.io, address, value)
        })
    }

    /// A fresh bus around a ROM image.
    pub fn new(data: &[u8]) -> (r: Bus)
        requires
            data@.len() >= 0x8000,
        ensures
            r.wf(),
            r.cart.rom@ == data@,
            r.cart.boot_rom is None,
            r.io.timer == (Timer { div: 0xAC00, tima: 0, tma: 0, tac: 0, cycles: 0 }),
            r.io.interrupt_flag == InterruptFlags::spec_from_byte(0),
            r.io.interrupt_enable == InterruptFlags::spec_from_byte(0),
            r.gpu.spec_lcdc() == 0x91,
            r.gpu.line == 0,
            forall|a: u16| ram_backed(a) ==> r.ram.spec_read(a) == 0,
    {
        Bus { cart: Cartridge::new(data), ram: RAM::new(), io: IO::new(), gpu: GPU::new() }
    }

    /// Reads the byte an address holds.
    pub fn bus_read(&mut self, address: u16) -> (r: u8)
        requires
            old(self).wf(),
        ensures
            *final(self) == *old(self),
            r == old(self).spec_read(address),
    {
        if address < 0x8000 {
            self.cart.cart_read(address)
        } else if address <= 0x9FFF {
            self.gpu.gpu_read(address)
        } else if address <= 0xDFFF {
            self.ram.ram_read(address)
        } else if address <= 0xFDFF {
            self.ram.ram_read(address - 0x2000)
        } else if address <= 0xFE9F {
            self.gpu.gpu_read(address)
        } else if address <= 0xFEFF {
            0xFF
        } else if 0xFF40 <= address && address <= 0xFF4B {
            self.gpu.gpu_read(address)
        } else if address <= 0xFF7F {
            self.io.io_read(address)
        } else if address <= 0xFFFE {
            self.ram.ram_read(address)
        } else {
            self.io.io_read(address)
        }
    }

    /// Reads the 16-bit word at an address, low byte first.
    pub fn bus_read_word(&mut self, address: u16) -> (r: u16)
        requires
            old(self).wf(),
            address < 0xFFFF,
        ensures
            *final(self) == *old(self),
            r == pair(old(self).spec_read((address + 1) as u16), old(self).spec_read(address)),
    {
        let lsb = self.bus_read(address) as u16;
        let msb = self.bus_read(address + 1) as u16;
        msb * 256 + lsb
    }

    /// Reads the 16-bit word at an address, low byte first, wrapping at
    /// the top of the address space.
    pub fn bus_read_word_wrapping(&mut self, address: u16) -> (r: u16)
        requires
            old(self).wf(),
        ensures
            *final(self) == *old(self),
            r == pair(old(self).spec_read(wadd16(address, 1)), old(self).spec_read(address)),
    {
        let lsb = self.bus_read(address) as u16;
        let msb = self.bus_read(address.wrapping_add(1)) as u16;
        msb * 256 + lsb
    }

    /// Writes one byte through the decoder.
    pub fn bus_write(&mut self, address: u16, value: u8)
        requires
            old(self).wf(),
        ensures
            final(self).wf(),
            Bus::spec_write_rel(*old(self), *final(self), address, value),
    {
        if address < 0x8000 {
            self.cart.cart_write(address, value);
        } else if address <= 0x9FFF {
            self.gpu.gpu_write(address, value);
        } else if address <= 0xDFFF {
            self.ram.ram_write(address, value);
        } else if address <= 0xFDFF {
        } else if address <= 0xFE9F {
            self.gpu.gpu_write(address, value);
        } else if address <= 0xFEFF {
        } else if address == 0xFF46 {
            self.oam_transfer(value);
        } else if 0xFF40 <= address && address <= 0xFF4B {
            self.gpu.gpu_write(address, value);
        } else if address == 0xFF50 {
            self.cart.disable_boot_rom();
        } else if address <= 0xFF7F {
            self.io.io_write(address, value);
        } else if address <= 0xFFFE {
            self.ram.ram_write(address, value);
        } else {
            self.io.io_write(address, value);
        }
    }

    /// The OAM transfer: copies the 160 bytes starting at `source` times
    /// 256 into the object attribute memory, one after the other.
    /// The OAM transfer: copies the 160 bytes starting at `source` times
    /// 256 into the object attribute memory. The source bytes are all
    /// gathered before the first store, which matches copying them one
    /// after the other: the only storage both windows can share is OAM
    /// itself, and there the copy moves each byte onto itself.
    fn oam_transfer(&mut self, source: u8)
        requires
            old(self).wf(),
        ensures
            final(self).wf(),
            *final(self) == (Bus { gpu: final(self).gpu, ..*old(self) }),
            final(self).gpu == (GPU {
                oam: final(self).gpu.oam,
                object_data: final(self).gpu.object_data,
                ..old(self).gpu
            }),
            final(self).gpu.oam@.len() == 0xA0,
            forall|k: int|
                0 <= k < 0xA0 ==> final(self).gpu.oam@[k] == old(self).spec_read(
                    (source * 256 + k) as u16,
                ),
    {
        let ghost pre = *self;
        let base: u16 = (source as u16) * 256;
        let mut bytes: Vec<u8> = Vec::new();
        let mut offset: u16 = 0;
        while offset < 160
            invariant
                pre.wf(),
                base == source * 256,
                offset <= 160,
                *self == pre,
                bytes@.len() == offset,
                forall|k: int| 0 <= k < offset ==> bytes@[k] == pre.spec_read((base + k) as u16),
            decreases 160 - offset,
        {
            let val = self.bus_read(base + offset);
            bytes.push(val);
            offset = offset + 1;
        }
        let mut stored: u16 = 0;
        while stored < 160
            invariant
                pre.wf(),
                self.wf(),
                stored <= 160,
                bytes@.len() == 160,
                forall|k: int| 0 <= k < 160 ==> bytes@[k] == pre.spec_read((base + k) as u16),
                base == source * 256,
                *self == (Bus { gpu: self.gpu, ..pre }),
                self.gpu == (GPU {
                    oam: self.gpu.oam,
                    object_data: self.gpu.object_data,
                    ..pre.gpu
                }),
                forall|k: int| 0 <= k < stored ==> self.gpu.oam@[k] == bytes@[k],
            decreases 160 - stored,
        {
            let val = bytes[stored as usize];
            self.gpu.write_oam(stored as usize, val);
            stored = stored + 1;
        }
        proof {
            assert forall|k: int| 0 <= k < 0xA0 implies self.gpu.oam@[k] == pre.spec_read(
                (source * 256 + k) as u16,
            ) by {
                assert(self.gpu.oam@[k] == bytes@[k]);
                assert(bytes@[k] == pre.spec_read((base + k) as u16));
            }
        }
    }

    /// Writes a 16-bit word, low byte at the address, high byte at the
    /// following address (wrapping at the top of the address space).
    pub fn bus_write_word(&mut self, address: u16, value: u16)
        requires
            old(self).wf(),
        ensures
            final(self).wf(),
            exists|mid: Bus|
                #[trigger] Bus::spec_write_rel(*old(self), mid, address, (value % 256) as u8)
                    && Bus::spec_write_rel(
                    mid,
                    *final(self),
                    wadd16(address, 1),
                    (value / 256) as u8,
                ),
    {
        let lsb = (value % 256) as u8;
        let msb = (value / 256) as u8;
        self.bus_write(address, lsb);
        let ghost mid = *self;
        let addr = address.wrapping_add(1);
        self.bus_write(addr, msb);
        proof {
            assert(Bus::spec_write_rel(*old(self), mid, address, (value % 256) as u8));
        }
    }

    /// True when some interrupt is both pending and enabled.
    pub open spec fn spec_has_interrupt(self) -> bool {
        ||| (self.io.interrupt_enable.vblank && self.io.interrupt_flag.vblank)
        ||| (self.io.interrupt_enable.lcdstat && self.io.interrupt_flag.lcdstat)
        ||| (self.io.interrupt_enable.timer && self.io.interrupt_flag.timer)
        ||| (self.io.interrupt_enable.serial && self.io.interrupt_flag.serial)
        ||| (self.io.interrupt_enable.joypad && self.io.interrupt_flag.joypad)
    }

    /// True when some interrupt is both pending and enabled.
    pub fn has_interrupt(&self) -> (r: bool)
        ensures
            r == self.spec_has_interrupt(),
    {
        (self.io.interrupt_enable.vblank && self.io.interrupt_flag.vblank)
            || (self.io.interrupt_enable.lcdstat && self.io.interrupt_flag.lcdstat)
            || (self.io.interrupt_enable.timer && self.io.interrupt_flag.timer)
            || (self.io.interrupt_enable.serial && self.io.interrupt_flag.serial)
            || (self.io.interrupt_enable.joypad && self.io.interrupt_flag.joypad)
    }

    /// Replaces the eight button states; a button that goes from
    /// released to pressed raises the joypad interrupt flag when the
    /// joypad interrupt is enabled.
    pub fn update_buttons(
        &mut self,
        a: bool,
        b: bool,
        start: bool,
        select: bool,
        up: bool,
        down: bool,
        left: bool,
        right: bool,
    )
        ensures
            final(self).io.joypad.a == a && final(self).io.joypad.b == b,
            final(self).io.joypad.start == start && final(self).io.joypad.select == select,
            final(self).io.joypad.up == up && final(self).io.joypad.down == down,
            final(self).io.joypad.left == left && final(self).io.joypad.right == right,
            final(self).io.joypad.column == old(self).io.joypad.column,
            final(self).io.interrupt_flag.joypad == (old(self).io.interrupt_flag.joypad || (old(
                self,
            ).io.interrupt_enable.joypad && crate::joypad::Joypad::spec_new_press(
                old(self).io.joypad,
                final(self).io.joypad,
            ))),
            *final(self) == (Bus { io: final(self).io, ..*old(self) }),
            final(self).io == (IO {
                joypad: final(self).io.joypad,
                interrupt_flag: final(self).io.interrupt_flag,
                ..old(self).io
            }),
            final(self).io.interrupt_flag == (InterruptFlags {
                joypad: final(self).io.interrupt_flag.joypad,
                ..old(self).io.interrupt_flag
            }),
    {
        let edge = self.io.joypad.set_buttons(a, b, start, select, up, down, left, right);
        if edge && self.io.interrupt_enable.joypad {
            self.io.interrupt_flag.joypad = true;
        }
    }

    /// Relates the bus before and after a clock step of `cycles`
    /// machine cycles: memory and masks keep their values, the timer
    /// advances exactly as its own step relation says, the pixel unit
    /// advances per its mode relation, and the interrupt flags gain
    /// exactly what the two peripherals requested.
    pub open spec fn spec_step_rel(pre: Bus, post: Bus, cycles: u8) -> bool {
        &&& (post.cart == pre.cart)
        &&& (post.ram == pre.ram)
        &&& (post.io.interrupt_enable == pre.io.interrupt_enable)
        &&& (post.io.joypad == pre.io.joypad)
        &&& (post.io.io@ == pre.io.io@)
        &&& (post.io.timer.div == wadd16(pre.io.timer.div, cycles as u16))
        &&& (post.io.timer.tma == pre.io.timer.tma)
        &&& (post.io.timer.tac == pre.io.timer.tac)
        &&& (!spec_timer_enabled(pre.io.timer.tac) ==> post.io.timer == (Timer {
                div: wadd16(pre.io.timer.div, cycles as u16),
                ..pre.io.timer
            }))
        &&& (spec_timer_enabled(pre.io.timer.tac) ==> ({
                let total = pre.io.timer.cycles + cycles;
                let p = spec_period(pre.io.timer.tac);
                &&& post.io.timer.cycles == total % p
                &&& post.io.timer.tima == spec_tima_after(
                    pre.io.timer.tima,
                    pre.io.timer.tma,
                    total / p,
                )
            }))
        &&& (post.io.interrupt_flag.timer == (pre.io.interrupt_flag.timer || (
            spec_timer_enabled(pre.io.timer.tac) && spec_tima_fired(
                pre.io.timer.tima,
                pre.io.timer.tma,
                (pre.io.timer.cycles + cycles) / spec_period(pre.io.timer.tac),
            ))))
        &&& (post.io.interrupt_flag.serial == pre.io.interrupt_flag.serial)
        &&& (post.io.interrupt_flag.joypad == pre.io.interrupt_flag.joypad)
        &&& (exists|r: InterruptRequest|
                {
                    &&& #[trigger] GPU::spec_step_rel(pre.gpu, post.gpu, cycles, r)
                    &&& post.io.interrupt_flag.vblank == (pre.io.interrupt_flag.vblank || r == InterruptRequest::VBlank || r
                        == InterruptRequest::Both)
                    &&& post.io.interrupt_flag.lcdstat == (pre.io.interrupt_flag.lcdstat || r == InterruptRequest::LCDStat || r
                        == InterruptRequest::Both)
                })
    }

    /// Advances the timer and the pixel unit by `cycles` machine cycles
    /// and raises the interrupt flags they request.
    pub fn step(&mut self, cycles: u8)
        requires
            old(self).wf(),
        ensures
            final(self).wf(),
            Bus::spec_step_rel(*old(self), *final(self), cycles),
    {
        let fired = self.io.timer.step(cycles);
        let req = self.gpu.step(cycles);
        self.raise_flags(fired, req);
    }

    /// Raises the interrupt flags that a clock step requests.
    fn raise_flags(&mut self, fired: bool, req: InterruptRequest)
        ensures
            *final(self) == (Bus { io: final(self).io, ..*old(self) }),
            final(self).io == (IO { interrupt_flag: final(self).io.interrupt_flag, ..old(self).io }),
            final(self).io.interrupt_flag == (InterruptFlags {
                timer: old(self).io.interrupt_flag.timer || fired,
                vblank: old(self).io.interrupt_flag.vblank || req == InterruptRequest::VBlank
                    || req == InterruptRequest::Both,
                lcdstat: old(self).io.interrupt_flag.lcdstat || req == InterruptRequest::LCDStat
                    || req == InterruptRequest::Both,
                ..old(self).io.interrupt_flag
            }),
    {
        if fired {
            self.io.interrupt_flag.timer = true;
        }
        let (vblank, lcd) = match req {
            InterruptRequest::Both => (true, true),
            InterruptRequest::VBlank => (true, false),
            InterruptRequest::LCDStat => (false, true),
            InterruptRequest::NoInterrupt => (false, false),
        };
        if vblank {
            self.io.interrupt_flag.vblank = true;
        }
        if lcd {
            self.io.interrupt_flag.lcdstat = true;
        }
    }
}

} // verus!
