//! The CPU register file: eight 8-bit registers (A, F, B, C, D, E, H, L),
//! the 16-bit PC and SP, 16-bit pair views (AF, BC, DE, HL) and the four
//! condition flags packed into the high nibble of F.

use vstd::prelude::*;

verus! {

/// One of the four condition flags stored in the high nibble of F:
/// bit 7 = Z (zero), bit 6 = N (subtract), bit 5 = H (half carry),
/// bit 4 = C (carry).
#[derive(Clone, Copy, PartialEq, Eq, Structural, Debug)]
pub enum Flag {
    Z,
    N,
    H,
    C,
}

/// True when the Z bit (0x80) is set in a flag byte.
pub open spec fn f_z(f: u8) -> bool {
    f & 0x80 == 0x80
}

/// True when the N bit (0x40) is set in a flag byte.
pub open spec fn f_n(f: u8) -> bool {
    f & 0x40 == 0x40
}

/// True when the H bit (0x20) is set in a flag byte.
pub open spec fn f_h(f: u8) -> bool {
    f & 0x20 == 0x20
}

/// True when the C bit (0x10) is set in a flag byte.
pub open spec fn f_c(f: u8) -> bool {
    f & 0x10 == 0x10
}

/// The flag byte encoding the four condition bits, with the low nibble zero.
pub open spec fn mk_f(z: bool, n: bool, h: bool, c: bool) -> u8 {
    ((if z { 0x80int } else { 0 }) + (if n { 0x40int } else { 0 }) + (if h { 0x20int } else { 0 })
        + (if c { 0x10int } else { 0 })) as u8
}

/// A flag byte is well formed when its low nibble is zero.
pub open spec fn f_wf(f: u8) -> bool {
    f & 0x0F == 0
}

proof fn lemma_set_mask(f: u8, m: u8)
    by (bit_vector)
    requires
        m == 0x80 || m == 0x40 || m == 0x20 || m == 0x10,
        f & 0x0F == 0,
    ensures
        (f | m) & 0x0F == 0,
        f_z(f | m) == (m == 0x80 || f_z(f)),
        f_n(f | m) == (m == 0x40 || f_n(f)),
        f_h(f | m) == (m == 0x20 || f_h(f)),
        f_c(f | m) == (m == 0x10 || f_c(f)),
{
}

proof fn lemma_clear_mask(f: u8, m: u8)
    by (bit_vector)
    requires
        m == 0x80 || m == 0x40 || m == 0x20 || m == 0x10,
        f & 0x0F == 0,
    ensures
        (f & (m ^ 0xFF)) & 0x0F == 0,
        f_z(f & (m ^ 0xFF)) == (m != 0x80 && f_z(f)),
        f_n(f & (m ^ 0xFF)) == (m != 0x40 && f_n(f)),
        f_h(f & (m ^ 0xFF)) == (m != 0x20 && f_h(f)),
        f_c(f & (m ^ 0xFF)) == (m != 0x10 && f_c(f)),
{
}

/// The zero byte is a well-formed flag byte.
pub proof fn lemma_zero_f_wf()
    by (bit_vector)
    ensures
        f_wf(0),
        !f_z(0) && !f_n(0) && !f_h(0) && !f_c(0),
{
}

/// A well-formed flag byte is determined by its four condition bits.
pub proof fn lemma_f_canonical(f: u8)
    by (bit_vector)
    requires
        f & 0x0F == 0,
    ensures
        f == mk_f(f_z(f), f_n(f), f_h(f), f_c(f)),
{
}

/// Masking a byte to its high nibble keeps the four condition bits and
/// clears the rest.
pub proof fn lemma_mask_high_nibble(b: u8)
    by (bit_vector)
    ensures
        (b & 0xF0) & 0x0F == 0,
        f_z(b & 0xF0) == f_z(b),
        f_n(b & 0xF0) == f_n(b),
        f_h(b & 0xF0) == f_h(b),
        f_c(b & 0xF0) == f_c(b),
{
}

impl Flag {
    /// The bit this flag occupies inside F.
    pub open spec fn spec_mask(self) -> u8 {
        match self {
            Flag::Z => 0x80,
            Flag::N => 0x40,
            Flag::H => 0x20,
            Flag::C => 0x10,
        }
    }

    /// The bit this flag occupies inside F.
    pub fn mask(self) -> (r: u8)
        ensures
            r == self.spec_mask(),
    {
        match self {
            Flag::Z => 0x80,
            Flag::N => 0x40,
            Flag::H => 0x20,
            Flag::C => 0x10,
        }
    }
}

/// A name of an 8-bit register, of a 16-bit register, or of a 16-bit pair
/// view of two 8-bit registers.
#[derive(Clone, Copy, PartialEq, Eq, Structural, Debug)]
pub enum RegisterName {
    A,
    F,
    B,
    C,
    D,
    E,
    H,
    L,
    HL,
    DE,
    BC,
    SP,
    PC,
    AF,
}

impl RegisterName {
    /// True of the names that read and write a single 8-bit register.
    pub open spec fn spec_is_r8(self) -> bool {
        match self {
            RegisterName::A
            | RegisterName::F
            | RegisterName::B
            | RegisterName::C
            | RegisterName::D
            | RegisterName::E
            | RegisterName::H
            | RegisterName::L => true,
            _ => false,
        }
    }

    /// True of the names that read and write a 16-bit value, the AF pair
    /// included.
    pub open spec fn spec_is_r16(self) -> bool {
        match self {
            RegisterName::HL
            | RegisterName::DE
            | RegisterName::BC
            | RegisterName::SP
            | RegisterName::PC
            | RegisterName::AF => true,
            _ => false,
        }
    }

    /// True of HL, DE, BC, SP and PC; AF deliberately answers false, so the
    /// instruction helpers that branch on this never route AF through the
    /// 16-bit arithmetic paths.
    pub open spec fn spec_is_u16_registers(self) -> bool {
        match self {
            RegisterName::HL
            | RegisterName::DE
            | RegisterName::BC
            | RegisterName::SP
            | RegisterName::PC => true,
            _ => false,
        }
    }

    /// True of HL, DE, BC, SP and PC; AF deliberately answers false.
    pub fn is_u16_registers(&self) -> (r: bool)
        ensures
            r == self.spec_is_u16_registers(),
    {
        match self {
            RegisterName::HL => true,
            RegisterName::DE => true,
            RegisterName::BC => true,
            RegisterName::SP => true,
            RegisterName::PC => true,
            _ => false,
        }
    }
}

/// A 16-bit value made of a high and a low byte.
pub open spec fn pair(hi: u8, lo: u8) -> u16 {
    (hi * 256 + lo) as u16
}

/// The CPU register file.
#[derive(Clone, Copy, PartialEq, Eq, Structural, Debug)]
pub struct Registers {
    pub a: u8,
    pub b: u8,
    pub c: u8,
    pub d: u8,
    pub e: u8,
    pub h: u8,
    pub l: u8,
    pub f: u8,
    pub pc: u16,
    pub sp: u16,
}

impl Registers {
    /// The register file is well formed when the low nibble of F is zero.
    pub open spec fn wf(self) -> bool {
        f_wf(self.f)
    }

    /// The value a name denotes when read as an 8-bit register.
    pub open spec fn spec_r8(self, register: RegisterName) -> u8 {
        match register {
            RegisterName::A => self.a,
            RegisterName::F => self.f,
            RegisterName::B => self.b,
            RegisterName::C => self.c,
            RegisterName::D => self.d,
            RegisterName::E => self.e,
            RegisterName::H => self.h,
            RegisterName::L => self.l,
            _ => 0,
        }
    }

    /// The value a name denotes when read as a 16-bit register or pair.
    pub open spec fn spec_r16(self, register: RegisterName) -> u16 {
        match register {
            RegisterName::HL => pair(self.h, self.l),
            RegisterName::DE => pair(self.d, self.e),
            RegisterName::BC => pair(self.b, self.c),
            RegisterName::SP => self.sp,
            RegisterName::PC => self.pc,
            RegisterName::AF => pair(self.a, self.f),
            _ => 0,
        }
    }

    /// The state after writing an 8-bit register; a write to F keeps only
    /// the high nibble.
    pub open spec fn spec_with_r8(self, register: RegisterName, value: u8) -> Registers {
        match register {
            RegisterName::A => Registers { a: value, ..self },
            RegisterName::F => Registers { f: value & 0xF0, ..self },
            RegisterName::B => Registers { b: value, ..self },
            RegisterName::C => Registers { c: value, ..self },
            RegisterName::D => Registers { d: value, ..self },
            RegisterName::E => Registers { e: value, ..self },
            RegisterName::H => Registers { h: value, ..self },
            RegisterName::L => Registers { l: value, ..self },
            _ => self,
        }
    }

    /// The state after writing a 16-bit register or pair; an AF write masks
    /// the low nibble of F to zero.
    pub open spec fn spec_with_r16(self, register: RegisterName, value: u16) -> Registers {
        match register {
            RegisterName::HL => Registers {
                h: (value / 256) as u8,
                l: (value % 256) as u8,
                ..self
            },
            RegisterName::DE => Registers {
                d: (value / 256) as u8,
                e: (value % 256) as u8,
                ..self
            },
            RegisterName::BC => Registers {
                b: (value / 256) as u8,
                c: (value % 256) as u8,
                ..self
            },
            RegisterName::SP => Registers { sp: value, ..self },
            RegisterName::PC => Registers { pc: value, ..self },
            RegisterName::AF => Registers {
                a: (value / 256) as u8,
                f: ((value % 256) as u8) & 0xF0,
                ..self
            },
            _ => self,
        }
    }

    /// The reset register file: everything zero but SP, with PC at the entry
    /// point of a cartridge whose boot code is skipped.
    pub fn new() -> (r: Registers)
        ensures
            r.wf(),
            r.a == 0 && r.b == 0 && r.c == 0 && r.d == 0 && r.e == 0,
            r.h == 0 && r.l == 0 && r.f == 0,
            r.pc == 0x0100,
            r.sp == 0xFFFE,
    {
        proof {
            lemma_zero_f_wf();
        }
        Registers {
            a: 0x00,
            b: 0x00,
            c: 0x00,
            d: 0x00,
            e: 0x00,
            h: 0x00,
            l: 0x00,
            f: 0x00,
            pc: 0x0100,
            sp: 0xFFFE,
        }
    }

    /// Reads an 8-bit register by name.
    pub fn value_of(&self, register: &RegisterName) -> (r: u8)
        requires
            register.spec_is_r8(),
        ensures
            r == self.spec_r8(*register),
    {
        match register {
            RegisterName::A => self.a,
            RegisterName::F => self.f,
            RegisterName::B => self.b,
            RegisterName::C => self.c,
            RegisterName::D => self.d,
            RegisterName::E => self.e,
            RegisterName::H => self.h,
            RegisterName::L => self.l,
            _ => 0,
        }
    }

    /// Reads a 16-bit register or pair by name.
    pub fn value_of_u16(&self, register: &RegisterName) -> (r: u16)
        requires
            register.spec_is_r16(),
        ensures
            r == self.spec_r16(*register),
    {
        match register {
            RegisterName::HL => self.get_hl(),
            RegisterName::DE => self.get_de(),
            RegisterName::BC => self.get_bc(),
            RegisterName::SP => self.sp,
            RegisterName::PC => self.pc,
            RegisterName::AF => self.get_af(),
            _ => 0,
        }
    }

    /// Writes an 8-bit register by name; a write to F keeps only the high
    /// nibble, so the register file stays well formed.
    pub fn write_in(&mut self, register: RegisterName, value: u8)
        requires
            register.spec_is_r8(),
            old(self).wf(),
        ensures
            *final(self) == old(self).spec_with_r8(register, value),
            final(self).wf(),
    {
        proof {
            lemma_mask_high_nibble(value);
        }
        match register {
            RegisterName::A => self.a = value,
            RegisterName::F => self.f = value & 0xF0,
            RegisterName::B => self.b = value,
            RegisterName::C => self.c = value,
            RegisterName::D => self.d = value,
            RegisterName::E => self.e = value,
            RegisterName::H => self.h = value,
            RegisterName::L => self.l = value,
            _ => (),
        }
    }

    /// Writes a 16-bit register or pair by name; an AF write masks the low
    /// nibble of F to zero.
    pub fn write_in_u16(&mut self, register: RegisterName, value: u16)
        requires
            register.spec_is_r16(),
            old(self).wf(),
        ensures
            *final(self) == old(self).spec_with_r16(register, value),
            final(self).wf(),
    {
        match register {
            RegisterName::HL => self.set_hl(value),
            RegisterName::DE => self.set_de(value),
            RegisterName::BC => self.set_bc(value),
            RegisterName::AF => self.set_af(value),
            RegisterName::SP => self.sp = value,
            RegisterName::PC => self.pc = value,
            _ => (),
        }
    }

    /// Sets one condition flag.
    pub fn set_flag(&mut self, flag: Flag)
        requires
            old(self).wf(),
        ensures
            final(self).wf(),
            f_z(final(self).f) == (flag == Flag::Z || f_z(old(self).f)),
            f_n(final(self).f) == (flag == Flag::N || f_n(old(self).f)),
            f_h(final(self).f) == (flag == Flag::H || f_h(old(self).f)),
            f_c(final(self).f) == (flag == Flag::C || f_c(old(self).f)),
            *final(self) == (Registers { f: final(self).f, ..*old(self) }),
    {
        proof {
            lemma_set_mask(self.f, flag.spec_mask());
        }
        let m = flag.mask();
        self.f = self.f | m;
    }

    /// Sets or clears one condition flag according to `condition`.
    pub fn update_flag(&mut self, flag: Flag, condition: bool)
        requires
            old(self).wf(),
        ensures
            final(self).wf(),
            f_z(final(self).f) == (if flag == Flag::Z { condition } else { f_z(old(self).f) }),
            f_n(final(self).f) == (if flag == Flag::N { condition } else { f_n(old(self).f) }),
            f_h(final(self).f) == (if flag == Flag::H { condition } else { f_h(old(self).f) }),
            f_c(final(self).f) == (if flag == Flag::C { condition } else { f_c(old(self).f) }),
            *final(self) == (Registers { f: final(self).f, ..*old(self) }),
    {
        if condition {
            self.set_flag(flag);
        } else {
            self.clear_flag(flag);
        }
    }

    /// Clears one condition flag.
    pub fn clear_flag(&mut self, flag: Flag)
        requires
            old(self).wf(),
        ensures
            final(self).wf(),
            f_z(final(self).f) == (flag != Flag::Z && f_z(old(self).f)),
            f_n(final(self).f) == (flag != Flag::N && f_n(old(self).f)),
            f_h(final(self).f) == (flag != Flag::H && f_h(old(self).f)),
            f_c(final(self).f) == (flag != Flag::C && f_c(old(self).f)),
            *final(self) == (Registers { f: final(self).f, ..*old(self) }),
    {
        proof {
            lemma_clear_mask(self.f, flag.spec_mask());
        }
        let m = flag.mask();
        self.f = self.f & (m ^ 0xFF);
    }

    /// Clears all four condition flags, leaving F zero.
    pub fn clear_all_flags(&mut self)
        requires
            old(self).wf(),
        ensures
            final(self).wf(),
            final(self).f == 0,
            *final(self) == (Registers { f: 0, ..*old(self) }),
    {
        self.clear_flag(Flag::Z);
        self.clear_flag(Flag::C);
        self.clear_flag(Flag::H);
        self.clear_flag(Flag::N);
        proof {
            lemma_f_canonical(self.f);
        }
    }

    /// Tests one condition flag.
    pub fn check_flag(&self, flag: Flag) -> (r: bool)
        ensures
            r == (match flag {
                Flag::Z => f_z(self.f),
                Flag::N => f_n(self.f),
                Flag::H => f_h(self.f),
                Flag::C => f_c(self.f),
            }),
    {
        let flag_value = flag.mask();
        self.f & flag_value == flag_value
    }

    /// The HL pair: H is the high byte, L the low byte.
    pub fn get_hl(&self) -> (r: u16)
        ensures
            r == pair(self.h, self.l),
    {
        (self.h as u16) * 256 + (self.l as u16)
    }

    /// The BC pair: B is the high byte, C the low byte.
    pub fn get_bc(&self) -> (r: u16)
        ensures
            r == pair(self.b, self.c),
    {
        (self.b as u16) * 256 + (self.c as u16)
    }

    /// The AF pair: A is the high byte, F the low byte.
    pub fn get_af(&self) -> (r: u16)
        ensures
            r == pair(self.a, self.f),
    {
        (self.a as u16) * 256 + (self.f as u16)
    }

    /// The DE pair: D is the high byte, E the low byte.
    pub fn get_de(&self) -> (r: u16)
        ensures
            r == pair(self.d, self.e),
    {
        (self.d as u16) * 256 + (self.e as u16)
    }

    /// The stack pointer.
    pub fn get_sp(&self) -> (r: u16)
        ensures
            r == self.sp,
    {
        self.sp
    }

    /// The program counter.
    pub fn get_pc(&self) -> (r: u16)
        ensures
            r == self.pc,
    {
        self.pc
    }

    /// Splits a 16-bit value into H and L.
    pub fn set_hl(&mut self, value: u16)
        ensures
            *final(self) == (Registers {
                h: (value / 256) as u8,
                l: (value % 256) as u8,
                ..*old(self)
            }),
            pair(final(self).h, final(self).l) == value,
    {
        self.h = (value / 256) as u8;
        self.l = (value % 256) as u8;
    }

    /// Splits a 16-bit value into A and F; the low nibble of F is masked to
    /// zero, so the register file stays well formed.
    pub fn set_af(&mut self, value: u16)
        ensures
            *final(self) == (Registers {
                a: (value / 256) as u8,
                f: ((value % 256) as u8) & 0xF0,
                ..*old(self)
            }),
            final(self).wf(),
    {
        proof {
            lemma_mask_high_nibble((value % 256) as u8);
        }
        self.a = (value / 256) as u8;
        self.f = ((value % 256) as u8) & 0xF0;
    }

    /// Splits a 16-bit value into B and C.
    pub fn set_bc(&mut self, value: u16)
        ensures
            *final(self) == (Registers {
                b: (value / 256) as u8,
                c: (value % 256) as u8,
                ..*old(self)
            }),
            pair(final(self).b, final(self).c) == value,
    {
        self.b = (value / 256) as u8;
        self.c = (value % 256) as u8;
    }

    /// Splits a 16-bit value into D and E.
    pub fn set_de(&mut self, value: u16)
        ensures
            *final(self) == (Registers {
                d: (value / 256) as u8,
                e: (value % 256) as u8,
                ..*old(self)
            }),
            pair(final(self).d, final(self).e) == value,
    {
        self.d = (value / 256) as u8;
        self.e = (value % 256) as u8;
    }

    /// Replaces the stack pointer.
    pub fn set_sp(&mut self, value: u16)
        ensures
            *final(self) == (Registers { sp: value, ..*old(self) }),
    {
        self.sp = value;
    }

    /// Replaces the program counter.
    pub fn set_pc(&mut self, value: u16)
        ensures
            *final(self) == (Registers { pc: value, ..*old(self) }),
    {
        self.pc = value;
    }
}

} // verus!
