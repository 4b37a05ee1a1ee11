//! The helpers of the prefixed opcode table: rotates, shifts, the
//! nibble swap, and the bit test, reset and set operations, each on one
//! of the eight operands (a register, or the byte HL addresses).

use vstd::prelude::*;
use crate::bus::Bus;
use crate::cpu::CPU;
use crate::registers::Flag;
use crate::registers::RegisterName;
use crate::registers::Registers;
use crate::registers::f_c;
use crate::registers::f_h;
use crate::registers::f_n;
use crate::registers::f_z;

verus! {

/// What `rlc` does, as a relation between the processor before
/// and after, on the operand the opcode selects.
pub open spec fn rlc_rel(pre: CPU, post: CPU, register: RegisterName) -> bool {
    &&& (post.wf())
    &&& (post.is_halted == pre.is_halted)
    &&& (post.interrupt_enabled == pre.interrupt_enabled)
    &&& (!register.spec_is_u16_registers() ==> ({
            let v = pre.registers.spec_r8(register);
            let nv = ((v * 2) % 256 + v / 128) as u8;
            &&& post.bus == pre.bus
            &&& post.registers == (Registers {
                f: post.registers.f,
                ..pre.registers.spec_with_r8(register, nv)
            })
            &&& f_z(post.registers.f) == (nv == 0)
            &&& f_n(post.registers.f) == false
            &&& f_h(post.registers.f) == false
            &&& f_c(post.registers.f) == (v >= 128)
        }))
    &&& (register.spec_is_u16_registers() ==> ({
            let v = pre.bus.spec_read(pre.registers.spec_r16(register));
            let nv = ((v * 2) % 256 + v / 128) as u8;
            &&& Bus::spec_write_rel(
                pre.bus,
                post.bus,
                pre.registers.spec_r16(register),
                nv,
            )
            &&& post.registers == (Registers {
                f: post.registers.f,
                ..pre.registers
            })
            &&& f_z(post.registers.f) == (nv == 0)
            &&& f_n(post.registers.f) == false
            &&& f_h(post.registers.f) == false
            &&& f_c(post.registers.f) == (v >= 128)
        }))
}

/// What `rrc` does, as a relation between the processor before
/// and after, on the operand the opcode selects.
pub open spec fn rrc_rel(pre: CPU, post: CPU, register: RegisterName) -> bool {
    &&& (post.wf())
    &&& (post.is_halted == pre.is_halted)
    &&& (post.interrupt_enabled == pre.interrupt_enabled)
    &&& (!register.spec_is_u16_registers() ==> ({
            let v = pre.registers.spec_r8(register);
            let nv = (v / 2 + (v % 2) * 128) as u8;
            &&& post.bus == pre.bus
            &&& post.registers == (Registers {
                f: post.registers.f,
                ..pre.registers.spec_with_r8(register, nv)
            })
            &&& f_z(post.registers.f) == (nv == 0)
            &&& f_n(post.registers.f) == false
            &&& f_h(post.registers.f) == false
            &&& f_c(post.registers.f) == (v % 2 == 1)
        }))
    &&& (register.spec_is_u16_registers() ==> ({
            let v = pre.bus.spec_read(pre.registers.spec_r16(register));
            let nv = (v / 2 + (v % 2) * 128) as u8;
            &&& Bus::spec_write_rel(
                pre.bus,
                post.bus,
                pre.registers.spec_r16(register),
                nv,
            )
            &&& post.registers == (Registers {
                f: post.registers.f,
                ..pre.registers
            })
            &&& f_z(post.registers.f) == (nv == 0)
            &&& f_n(post.registers.f) == false
            &&& f_h(post.registers.f) == false
            &&& f_c(post.registers.f) == (v % 2 == 1)
        }))
}

/// What `rl` does, as a relation between the processor before
/// and after, on the operand the opcode selects.
pub open spec fn rl_rel(pre: CPU, post: CPU, register: RegisterName) -> bool {
    &&& (post.wf())
    &&& (post.is_halted == pre.is_halted)
    &&& (post.interrupt_enabled == pre.interrupt_enabled)
    &&& (!register.spec_is_u16_registers() ==> ({
            let v = pre.registers.spec_r8(register);
            let nv = ((v * 2) % 256 + (if f_c(pre.registers.f) { 1int } else { 0 })) as u8;
            &&& post.bus == pre.bus
            &&& post.registers == (Registers {
                f: post.registers.f,
                ..pre.registers.spec_with_r8(register, nv)
            })
            &&& f_z(post.registers.f) == (nv == 0)
            &&& f_n(post.registers.f) == false
            &&& f_h(post.registers.f) == false
            &&& f_c(post.registers.f) == (v >= 128)
        }))
    &&& (register.spec_is_u16_registers() ==> ({
            let v = pre.bus.spec_read(pre.registers.spec_r16(register));
            let nv = ((v * 2) % 256 + (if f_c(pre.registers.f) { 1int } else { 0 })) as u8;
            &&& Bus::spec_write_rel(
                pre.bus,
                post.bus,
                pre.registers.spec_r16(register),
                nv,
            )
            &&& post.registers == (Registers {
                f: post.registers.f,
                ..pre.registers
            })
            &&& f_z(post.registers.f) == (nv == 0)
            &&& f_n(post.registers.f) == false
            &&& f_h(post.registers.f) == false
            &&& f_c(post.registers.f) == (v >= 128)
        }))
}

/// What `rr` does, as a relation between the processor before
/// and after, on the operand the opcode selects.
pub open spec fn rr_rel(pre: CPU, post: CPU, register: RegisterName) -> bool {
    &&& (post.wf())
    &&& (post.is_halted == pre.is_halted)
    &&& (post.interrupt_enabled == pre.interrupt_enabled)
    &&& (!register.spec_is_u16_registers() ==> ({
            let v = pre.registers.spec_r8(register);
            let nv = (v / 2 + (if f_c(pre.registers.f) { 128int } else { 0 })) as u8;
            &&& post.bus == pre.bus
            &&& post.registers == (Registers {
                f: post.registers.f,
                ..pre.registers.spec_with_r8(register, nv)
            })
            &&& f_z(post.registers.f) == (nv == 0)
            &&& f_n(post.registers.f) == false
            &&& f_h(post.registers.f) == false
            &&& f_c(post.registers.f) == (v % 2 == 1)
        }))
    &&& (register.spec_is_u16_registers() ==> ({
            let v = pre.bus.spec_read(pre.registers.spec_r16(register));
            let nv = (v / 2 + (if f_c(pre.registers.f) { 128int } else { 0 })) as u8;
            &&& Bus::spec_write_rel(
                pre.bus,
                post.bus,
                pre.registers.spec_r16(register),
                nv,
            )
            &&& post.registers == (Registers {
                f: post.registers.f,
                ..pre.registers
            })
            &&& f_z(post.registers.f) == (nv == 0)
            &&& f_n(post.registers.f) == false
            &&& f_h(post.registers.f) == false
            &&& f_c(post.registers.f) == (v % 2 == 1)
        }))
}

/// What `sla` does, as a relation between the processor before
/// and after, on the operand the opcode selects.
pub open spec fn sla_rel(pre: CPU, post: CPU, register: RegisterName) -> bool {
    &&& (post.wf())
    &&& (post.is_halted == pre.is_halted)
    &&& (post.interrupt_enabled == pre.interrupt_enabled)
    &&& (!register.spec_is_u16_registers() ==> ({
            let v = pre.registers.spec_r8(register);
            let nv = ((v * 2) % 256) as u8;
            &&& post.bus == pre.bus
            &&& post.registers == (Registers {
                f: post.registers.f,
                ..pre.registers.spec_with_r8(register, nv)
            })
            &&& f_z(post.registers.f) == (nv == 0)
            &&& f_n(post.registers.f) == false
            &&& f_h(post.registers.f) == false
            &&& f_c(post.registers.f) == (v >= 128)
        }))
    &&& (register.spec_is_u16_registers() ==> ({
            let v = pre.bus.spec_read(pre.registers.spec_r16(register));
            let nv = ((v * 2) % 256) as u8;
            &&& Bus::spec_write_rel(
                pre.bus,
                post.bus,
                pre.registers.spec_r16(register),
                nv,
            )
            &&& post.registers == (Registers {
                f: post.registers.f,
                ..pre.registers
            })
            &&& f_z(post.registers.f) == (nv == 0)
            &&& f_n(post.registers.f) == false
            &&& f_h(post.registers.f) == false
            &&& f_c(post.registers.f) == (v >= 128)
        }))
}

/// What `sra` does, as a relation between the processor before
/// and after, on the operand the opcode selects.
pub open spec fn sra_rel(pre: CPU, post: CPU, register: RegisterName) -> bool {
    &&& (post.wf())
    &&& (post.is_halted == pre.is_halted)
    &&& (post.interrupt_enabled == pre.interrupt_enabled)
    &&& (!register.spec_is_u16_registers() ==> ({
            let v = pre.registers.spec_r8(register);
            let nv = (v / 2 + (v / 128) * 128) as u8;
            &&& post.bus == pre.bus
            &&& post.registers == (Registers {
                f: post.registers.f,
                ..pre.registers.spec_with_r8(register, nv)
            })
            &&& f_z(post.registers.f) == (nv == 0)
            &&& f_n(post.registers.f) == false
            &&& f_h(post.registers.f) == false
            &&& f_c(post.registers.f) == (v % 2 == 1)
        }))
    &&& (register.spec_is_u16_registers() ==> ({
            let v = pre.bus.spec_read(pre.registers.spec_r16(register));
            let nv = (v / 2 + (v / 128) * 128) as u8;
            &&& Bus::spec_write_rel(
                pre.bus,
                post.bus,
                pre.registers.spec_r16(register),
                nv,
            )
            &&& post.registers == (Registers {
                f: post.registers.f,
                ..pre.registers
            })
            &&& f_z(post.registers.f) == (nv == 0)
            &&& f_n(post.registers.f) == false
            &&& f_h(post.registers.f) == false
            &&& f_c(post.registers.f) == (v % 2 == 1)
        }))
}

/// What `swap` does, as a relation between the processor before
/// and after, on the operand the opcode selects.
pub open spec fn swap_rel(pre: CPU, post: CPU, register: RegisterName) -> bool {
    &&& (post.wf())
    &&& (post.is_halted == pre.is_halted)
    &&& (post.interrupt_enabled == pre.interrupt_enabled)
    &&& (!register.spec_is_u16_registers() ==> ({
            let v = pre.registers.spec_r8(register);
            let nv = ((v % 16) * 16 + v / 16) as u8;
            &&& post.bus == pre.bus
            &&& post.registers == (Registers {
                f: post.registers.f,
                ..pre.registers.spec_with_r8(register, nv)
            })
            &&& f_z(post.registers.f) == (nv == 0)
            &&& f_n(post.registers.f) == false
            &&& f_h(post.registers.f) == false
            &&& f_c(post.registers.f) == false
        }))
    &&& (register.spec_is_u16_registers() ==> ({
            let v = pre.bus.spec_read(pre.registers.spec_r16(register));
            let nv = ((v % 16) * 16 + v / 16) as u8;
            &&& Bus::spec_write_rel(
                pre.bus,
                post.bus,
                pre.registers.spec_r16(register),
                nv,
            )
            &&& post.registers == (Registers {
                f: post.registers.f,
                ..pre.registers
            })
            &&& f_z(post.registers.f) == (nv == 0)
            &&& f_n(post.registers.f) == false
            &&& f_h(post.registers.f) == false
            &&& f_c(post.registers.f) == false
        }))
}

/// What `srl` does, as a relation between the processor before
/// and after, on the operand the opcode selects.
pub open spec fn srl_rel(pre: CPU, post: CPU, register: RegisterName) -> bool {
    &&& (post.wf())
    &&& (post.is_halted == pre.is_halted)
    &&& (post.interrupt_enabled == pre.interrupt_enabled)
    &&& (!register.spec_is_u16_registers() ==> ({
            let v = pre.registers.spec_r8(register);
            let nv = (v / 2) as u8;
            &&& post.bus == pre.bus
            &&& post.registers == (Registers {
                f: post.registers.f,
                ..pre.registers.spec_with_r8(register, nv)
            })
            &&& f_z(post.registers.f) == (nv == 0)
            &&& f_n(post.registers.f) == false
            &&& f_h(post.registers.f) == false
            &&& f_c(post.registers.f) == (v % 2 == 1)
        }))
    &&& (register.spec_is_u16_registers() ==> ({
            let v = pre.bus.spec_read(pre.registers.spec_r16(register));
            let nv = (v / 2) as u8;
            &&& Bus::spec_write_rel(
                pre.bus,
                post.bus,
                pre.registers.spec_r16(register),
                nv,
            )
            &&& post.registers == (Registers {
                f: post.registers.f,
                ..pre.registers
            })
            &&& f_z(post.registers.f) == (nv == 0)
            &&& f_n(post.registers.f) == false
            &&& f_h(post.registers.f) == false
            &&& f_c(post.registers.f) == (v % 2 == 1)
        }))
}

/// What `bit` does, as a relation between the processor before
/// and after, on the operand the opcode selects.
pub open spec fn bit_rel(pre: CPU, post: CPU, bit: u8, register: RegisterName) -> bool {
    &&& (post.wf())
    &&& (post.bus == pre.bus)
    &&& (post.is_halted == pre.is_halted)
    &&& (post.interrupt_enabled == pre.interrupt_enabled)
    &&& (({
            let v = if register.spec_is_u16_registers() {
                pre.bus.spec_read(pre.registers.spec_r16(register))
            } else {
                pre.registers.spec_r8(register)
            };
            &&& post.registers == (Registers {
                f: post.registers.f,
                ..pre.registers
            })
            &&& f_z(post.registers.f) == ((v / spec_bit_mask(bit)) % 2 == 0)
            &&& f_n(post.registers.f) == false
            &&& f_h(post.registers.f) == true
            &&& f_c(post.registers.f) == f_c(pre.registers.f)
        }))
}

/// What `res` does, as a relation between the processor before
/// and after, on the operand the opcode selects.
pub open spec fn res_rel(pre: CPU, post: CPU, bit: u8, register: RegisterName) -> bool {
    &&& (post.wf())
    &&& (post.is_halted == pre.is_halted)
    &&& (post.interrupt_enabled == pre.interrupt_enabled)
    &&& (!register.spec_is_u16_registers() ==> ({
            let v = pre.registers.spec_r8(register);
            let nv = v & (spec_bit_mask(bit) ^ 0xFF);
            &&& post.bus == pre.bus
            &&& post.registers == pre.registers.spec_with_r8(register, nv)
        }))
    &&& (register.spec_is_u16_registers() ==> ({
            let v = pre.bus.spec_read(pre.registers.spec_r16(register));
            let nv = v & (spec_bit_mask(bit) ^ 0xFF);
            &&& post.registers == pre.registers
            &&& Bus::spec_write_rel(
                pre.bus,
                post.bus,
                pre.registers.spec_r16(register),
                nv,
            )
        }))
}

/// What `set` does, as a relation between the processor before
/// and after, on the operand the opcode selects.
pub open spec fn set_rel(pre: CPU, post: CPU, bit: u8, register: RegisterName) -> bool {
    &&& (post.wf())
    &&& (post.is_halted == pre.is_halted)
    &&& (post.interrupt_enabled == pre.interrupt_enabled)
    &&& (!register.spec_is_u16_registers() ==> ({
            let v = pre.registers.spec_r8(register);
            let nv = v | spec_bit_mask(bit);
            &&& post.bus == pre.bus
            &&& post.registers == pre.registers.spec_with_r8(register, nv)
        }))
    &&& (register.spec_is_u16_registers() ==> ({
            let v = pre.bus.spec_read(pre.registers.spec_r16(register));
            let nv = v | spec_bit_mask(bit);
            &&& post.registers == pre.registers
            &&& Bus::spec_write_rel(
                pre.bus,
                post.bus,
                pre.registers.spec_r16(register),
                nv,
            )
        }))
}



/// The power of two that selects one bit of a byte.
pub open spec fn spec_bit_mask(bit: u8) -> u8 {
    if bit == 0 { 1 } else if bit == 1 { 2 } else if bit == 2 { 4 } else if bit == 3 { 8 }
    else if bit == 4 { 16 } else if bit == 5 { 32 } else if bit == 6 { 64 } else { 128 }
}

/// The power of two that selects one bit of a byte.
fn bit_mask(bit: u8) -> (r: u8)
    requires
        bit <= 7,
    ensures
        r == spec_bit_mask(bit),
{
    if bit == 0 { 1 } else if bit == 1 { 2 } else if bit == 2 { 4 } else if bit == 3 { 8 }
    else if bit == 4 { 16 } else if bit == 5 { 32 } else if bit == 6 { 64 } else { 128 }
}

/// Rotates the operand left circularly: C takes the old top bit, Z from the result, N and H clear. A 16-bit register name selects the byte it addresses.
pub fn rlc(cpu: &mut CPU, register: RegisterName)
    requires
        old(cpu).wf(),
        register.spec_is_u16_registers() || register.spec_is_r8() && register
            != RegisterName::F,
    ensures
        rlc_rel(*old(cpu), *final(cpu), register),

{
    if register.is_u16_registers() {
        let address = cpu.registers.value_of_u16(&register);
        let v = cpu.bus.bus_read(address);
        let nv = (((v as u16) * 2) % 256) as u8 + v / 128;
        cpu.bus.bus_write(address, nv);
        cpu.registers.update_flag(Flag::C, (v >= 128));
        cpu.registers.update_flag(Flag::Z, nv == 0);
        cpu.registers.update_flag(Flag::N, false);
        cpu.registers.update_flag(Flag::H, false);
    } else {
        let v = cpu.registers.value_of(&register);
        let nv = (((v as u16) * 2) % 256) as u8 + v / 128;
        cpu.registers.write_in(register, nv);
        cpu.registers.update_flag(Flag::C, (v >= 128));
        cpu.registers.update_flag(Flag::Z, nv == 0);
        cpu.registers.update_flag(Flag::N, false);
        cpu.registers.update_flag(Flag::H, false);
    }
}

/// Rotates the operand right circularly: C takes the old bottom bit, Z from the result, N and H clear. A 16-bit register name selects the byte it addresses.
pub fn rrc(cpu: &mut CPU, register: RegisterName)
    requires
        old(cpu).wf(),
        register.spec_is_u16_registers() || register.spec_is_r8() && register
            != RegisterName::F,
    ensures
        rrc_rel(*old(cpu), *final(cpu), register),

{
    if register.is_u16_registers() {
        let address = cpu.registers.value_of_u16(&register);
        let v = cpu.bus.bus_read(address);
        let nv = v / 2 + (v % 2) * 128;
        cpu.bus.bus_write(address, nv);
        cpu.registers.update_flag(Flag::C, (v % 2 == 1));
        cpu.registers.update_flag(Flag::Z, nv == 0);
        cpu.registers.update_flag(Flag::N, false);
        cpu.registers.update_flag(Flag::H, false);
    } else {
        let v = cpu.registers.value_of(&register);
        let nv = v / 2 + (v % 2) * 128;
        cpu.registers.write_in(register, nv);
        cpu.registers.update_flag(Flag::C, (v % 2 == 1));
        cpu.registers.update_flag(Flag::Z, nv == 0);
        cpu.registers.update_flag(Flag::N, false);
        cpu.registers.update_flag(Flag::H, false);
    }
}

/// Rotates the operand left through the carry: C takes the old top bit, the old carry enters at the bottom; Z from the result, N and H clear. A 16-bit register name selects the byte it addresses.
pub fn rl(cpu: &mut CPU, register: RegisterName)
    requires
        old(cpu).wf(),
        register.spec_is_u16_registers() || register.spec_is_r8() && register
            != RegisterName::F,
    ensures
        rl_rel(*old(cpu), *final(cpu), register),

{
    if register.is_u16_registers() {
        let address = cpu.registers.value_of_u16(&register);
        let v = cpu.bus.bus_read(address);
        let cin: u8 = if cpu.registers.check_flag(Flag::C) { 1 } else { 0 };
    let nv = (((v as u16) * 2) % 256) as u8 + cin;
        cpu.bus.bus_write(address, nv);
        cpu.registers.update_flag(Flag::C, (v >= 128));
        cpu.registers.update_flag(Flag::Z, nv == 0);
        cpu.registers.update_flag(Flag::N, false);
        cpu.registers.update_flag(Flag::H, false);
    } else {
        let v = cpu.registers.value_of(&register);
        let cin: u8 = if cpu.registers.check_flag(Flag::C) { 1 } else { 0 };
    let nv = (((v as u16) * 2) % 256) as u8 + cin;
        cpu.registers.write_in(register, nv);
        cpu.registers.update_flag(Flag::C, (v >= 128));
        cpu.registers.update_flag(Flag::Z, nv == 0);
        cpu.registers.update_flag(Flag::N, false);
        cpu.registers.update_flag(Flag::H, false);
    }
}

/// Rotates the operand right through the carry: C takes the old bottom bit, the old carry enters at the top; Z from the result, N and H clear. A 16-bit register name selects the byte it addresses.
pub fn rr(cpu: &mut CPU, register: RegisterName)
    requires
        old(cpu).wf(),
        register.spec_is_u16_registers() || register.spec_is_r8() && register
            != RegisterName::F,
    ensures
        rr_rel(*old(cpu), *final(cpu), register),

{
    if register.is_u16_registers() {
        let address = cpu.registers.value_of_u16(&register);
        let v = cpu.bus.bus_read(address);
        let cin: u8 = if cpu.registers.check_flag(Flag::C) { 128 } else { 0 };
    let nv = v / 2 + cin;
        cpu.bus.bus_write(address, nv);
        cpu.registers.update_flag(Flag::C, (v % 2 == 1));
        cpu.registers.update_flag(Flag::Z, nv == 0);
        cpu.registers.update_flag(Flag::N, false);
        cpu.registers.update_flag(Flag::H, false);
    } else {
        let v = cpu.registers.value_of(&register);
        let cin: u8 = if cpu.registers.check_flag(Flag::C) { 128 } else { 0 };
    let nv = v / 2 + cin;
        cpu.registers.write_in(register, nv);
        cpu.registers.update_flag(Flag::C, (v % 2 == 1));
        cpu.registers.update_flag(Flag::Z, nv == 0);
        cpu.registers.update_flag(Flag::N, false);
        cpu.registers.update_flag(Flag::H, false);
    }
}

/// Shifts the operand left: C takes the old top bit, Z from the result, N and H clear. A 16-bit register name selects the byte it addresses.
pub fn sla(cpu: &mut CPU, register: RegisterName)
    requires
        old(cpu).wf(),
        register.spec_is_u16_registers() || register.spec_is_r8() && register
            != RegisterName::F,
    ensures
        sla_rel(*old(cpu), *final(cpu), register),

{
    if register.is_u16_registers() {
        let address = cpu.registers.value_of_u16(&register);
        let v = cpu.bus.bus_read(address);
        let nv = (((v as u16) * 2) % 256) as u8;
        cpu.bus.bus_write(address, nv);
        cpu.registers.update_flag(Flag::C, (v >= 128));
        cpu.registers.update_flag(Flag::Z, nv == 0);
        cpu.registers.update_flag(Flag::N, false);
        cpu.registers.update_flag(Flag::H, false);
    } else {
        let v = cpu.registers.value_of(&register);
        let nv = (((v as u16) * 2) % 256) as u8;
        cpu.registers.write_in(register, nv);
        cpu.registers.update_flag(Flag::C, (v >= 128));
        cpu.registers.update_flag(Flag::Z, nv == 0);
        cpu.registers.update_flag(Flag::N, false);
        cpu.registers.update_flag(Flag::H, false);
    }
}

/// Shifts the operand right arithmetically, keeping the top bit: C takes the old bottom bit, Z from the result, N and H clear. A 16-bit register name selects the byte it addresses.
pub fn sra(cpu: &mut CPU, register: RegisterName)
    requires
        old(cpu).wf(),
        register.spec_is_u16_registers() || register.spec_is_r8() && register
            != RegisterName::F,
    ensures
        sra_rel(*old(cpu), *final(cpu), register),

{
    if register.is_u16_registers() {
        let address = cpu.registers.value_of_u16(&register);
        let v = cpu.bus.bus_read(address);
        let nv = v / 2 + (v / 128) * 128;
        cpu.bus.bus_write(address, nv);
        cpu.registers.update_flag(Flag::C, (v % 2 == 1));
        cpu.registers.update_flag(Flag::Z, nv == 0);
        cpu.registers.update_flag(Flag::N, false);
        cpu.registers.update_flag(Flag::H, false);
    } else {
        let v = cpu.registers.value_of(&register);
        let nv = v / 2 + (v / 128) * 128;
        cpu.registers.write_in(register, nv);
        cpu.registers.update_flag(Flag::C, (v % 2 == 1));
        cpu.registers.update_flag(Flag::Z, nv == 0);
        cpu.registers.update_flag(Flag::N, false);
        cpu.registers.update_flag(Flag::H, false);
    }
}

/// Swaps the two nibbles of the operand: Z from the result, N, H and C clear. A 16-bit register name selects the byte it addresses.
pub fn swap(cpu: &mut CPU, register: RegisterName)
    requires
        old(cpu).wf(),
        register.spec_is_u16_registers() || register.spec_is_r8() && register
            != RegisterName::F,
    ensures
        swap_rel(*old(cpu), *final(cpu), register),

{
    if register.is_u16_registers() {
        let address = cpu.registers.value_of_u16(&register);
        let v = cpu.bus.bus_read(address);
        let nv = (v % 16) * 16 + v / 16;
        cpu.bus.bus_write(address, nv);
        cpu.registers.update_flag(Flag::C, false);
        cpu.registers.update_flag(Flag::Z, nv == 0);
        cpu.registers.update_flag(Flag::N, false);
        cpu.registers.update_flag(Flag::H, false);
    } else {
        let v = cpu.registers.value_of(&register);
        let nv = (v % 16) * 16 + v / 16;
        cpu.registers.write_in(register, nv);
        cpu.registers.update_flag(Flag::C, false);
        cpu.registers.update_flag(Flag::Z, nv == 0);
        cpu.registers.update_flag(Flag::N, false);
        cpu.registers.update_flag(Flag::H, false);
    }
}

/// Shifts the operand right logically: C takes the old bottom bit, Z from the result, N and H clear. A 16-bit register name selects the byte it addresses.
pub fn srl(cpu: &mut CPU, register: RegisterName)
    requires
        old(cpu).wf(),
        register.spec_is_u16_registers() || register.spec_is_r8() && register
            != RegisterName::F,
    ensures
        srl_rel(*old(cpu), *final(cpu), register),

{
    if register.is_u16_registers() {
        let address = cpu.registers.value_of_u16(&register);
        let v = cpu.bus.bus_read(address);
        let nv = v / 2;
        cpu.bus.bus_write(address, nv);
        cpu.registers.update_flag(Flag::C, (v % 2 == 1));
        cpu.registers.update_flag(Flag::Z, nv == 0);
        cpu.registers.update_flag(Flag::N, false);
        cpu.registers.update_flag(Flag::H, false);
    } else {
        let v = cpu.registers.value_of(&register);
        let nv = v / 2;
        cpu.registers.write_in(register, nv);
        cpu.registers.update_flag(Flag::C, (v % 2 == 1));
        cpu.registers.update_flag(Flag::Z, nv == 0);
        cpu.registers.update_flag(Flag::N, false);
        cpu.registers.update_flag(Flag::H, false);
    }
}

/// Tests one bit of the operand: Z is set when the bit is clear, N
/// clears, H sets, C is kept. A 16-bit register name selects the byte
/// it addresses.
pub fn bit(cpu: &mut CPU, bit: u8, register: RegisterName)
    requires
        old(cpu).wf(),
        bit <= 7,
        register.spec_is_u16_registers() || register.spec_is_r8(),
    ensures
        bit_rel(*old(cpu), *final(cpu), bit, register),

{
    let v: u8;
    if register.is_u16_registers() {
        let address = cpu.registers.value_of_u16(&register);
        v = cpu.bus.bus_read(address);
    } else {
        v = cpu.registers.value_of(&register);
    }
    let m = bit_mask(bit);
    let is_set = (v / m) % 2 == 1;
    cpu.registers.update_flag(Flag::Z, !is_set);
    cpu.registers.update_flag(Flag::N, false);
    cpu.registers.update_flag(Flag::H, true);
}

/// Clears one bit of the operand, leaving the flags alone. A 16-bit
/// register name selects the byte it addresses.
pub fn res(cpu: &mut CPU, bit: u8, register: RegisterName)
    requires
        old(cpu).wf(),
        bit <= 7,
        register.spec_is_u16_registers() || register.spec_is_r8() && register
            != RegisterName::F,
    ensures
        res_rel(*old(cpu), *final(cpu), bit, register),

{
    let m = bit_mask(bit);
    if register.is_u16_registers() {
        let addr = cpu.registers.value_of_u16(&register);
        let v = cpu.bus.bus_read(addr);
        let nv = v & (m ^ 0xFF);
        cpu.bus.bus_write(addr, nv);
    } else {
        let v = cpu.registers.value_of(&register);
        let nv = v & (m ^ 0xFF);
        cpu.registers.write_in(register, nv);
    }
}

/// Sets one bit of the operand, leaving the flags alone. A 16-bit
/// register name selects the byte it addresses.
pub fn set(cpu: &mut CPU, bit: u8, register: RegisterName)
    requires
        old(cpu).wf(),
        bit <= 7,
        register.spec_is_u16_registers() || register.spec_is_r8() && register
            != RegisterName::F,
    ensures
        set_rel(*old(cpu), *final(cpu), bit, register),

{
    let m = bit_mask(bit);
    if register.is_u16_registers() {
        let addr = cpu.registers.value_of_u16(&register);
        let v = cpu.bus.bus_read(addr);
        let nv = v | m;
        cpu.bus.bus_write(addr, nv);
    } else {
        let v = cpu.registers.value_of(&register);
        let nv = v | m;
        cpu.registers.write_in(register, nv);
    }
}

} // verus!
