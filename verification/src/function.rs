//! The instruction helpers of the primary opcode table: loads,
//! arithmetic, logic, compares, jumps, calls, stack moves and the
//! miscellaneous operations, each parameterised by the register names the
//! opcode selects and returning its machine-cycle cost.

use vstd::prelude::*;
use crate::bus::Bus;
use crate::cpu::CPU;
use crate::registers::Flag;
use crate::registers::RegisterName;
use crate::registers::Registers;
use crate::registers::f_c;
use crate::registers::f_h;
use crate::registers::f_n;
use crate::registers::f_z;
use crate::registers::pair;
use crate::timer::wadd16;
use crate::timer::wsub16;

verus! {

/// What `add_rm` does, as a relation between the processor before
/// and after, with the names and the cycle cost the opcode selects.
pub open spec fn add_rm_rel(pre: CPU, post: CPU, destination: RegisterName, source: RegisterName, cycles: u8, r: u8) -> bool {
    &&& (r == cycles)
    &&& (post.wf())
    &&& (post.bus == pre.bus)
    &&& (latches_kept(pre, post))
    &&& (({
            let a0 = pre.registers.spec_r8(destination);
            let v = pre.bus.spec_read(pre.registers.spec_r16(source));
            let nv = sum8(a0, v);
            &&& post.registers == (Registers {
                f: post.registers.f,
                ..pre.registers.spec_with_r8(destination, nv)
            })
            &&& f_z(post.registers.f) == (nv == 0)
            &&& f_n(post.registers.f) == false
            &&& f_h(post.registers.f) == (a0 % 16 + v % 16 > 15)
            &&& f_c(post.registers.f) == (a0 + v > 255)
        }))
}

/// What `add_rv` does, as a relation between the processor before
/// and after, with the names and the cycle cost the opcode selects.
pub open spec fn add_rv_rel(pre: CPU, post: CPU, destination: RegisterName, cycles: u8, r: u8) -> bool {
    &&& (r == cycles)
    &&& (post.wf())
    &&& (post.bus == pre.bus)
    &&& (latches_kept(pre, post))
    &&& (({
            let a0 = pre.registers.spec_r8(destination);
            let v = pre.bus.spec_read(pre.registers.pc);
            let nv = sum8(a0, v);
            &&& post.registers == (Registers {
                f: post.registers.f,
                ..(Registers {
                    pc: wadd16(pre.registers.pc, 1),
                    ..pre.registers
                }).spec_with_r8(destination, nv)
            })
            &&& f_z(post.registers.f) == (nv == 0)
            &&& f_n(post.registers.f) == false
            &&& f_h(post.registers.f) == (a0 % 16 + v % 16 > 15)
            &&& f_c(post.registers.f) == (a0 + v > 255)
        }))
}

/// What `adc_rr` does, as a relation between the processor before
/// and after, with the names and the cycle cost the opcode selects.
pub open spec fn adc_rr_rel(pre: CPU, post: CPU, destination: RegisterName, source: RegisterName, cycles: u8, r: u8) -> bool {
    &&& (r == cycles)
    &&& (post.wf())
    &&& (post.bus == pre.bus)
    &&& (latches_kept(pre, post))
    &&& (({
                let a0 = pre.registers.spec_r8(destination);
                let v = pre.registers.spec_r8(source);
                let cin = f_c(pre.registers.f);
                let nv = sum8c(a0, v, cin);
                &&& post.registers == (Registers {
                    f: post.registers.f,
                    ..pre.registers.spec_with_r8(destination, nv)
                })
                &&& f_z(post.registers.f) == (sum8c(a0, v, cin) == 0)
                &&& f_n(post.registers.f) == false
                &&& f_h(post.registers.f) == (a0 % 16 + v % 16 + (if cin { 1int } else { 0 }) > 15)
                &&& f_c(post.registers.f) == (a0 + v + (if cin { 1int } else { 0 }) > 255)
        }))
}

/// What `adc_rm` does, as a relation between the processor before
/// and after, with the names and the cycle cost the opcode selects.
pub open spec fn adc_rm_rel(pre: CPU, post: CPU, destination: RegisterName, source: RegisterName, cycles: u8, r: u8) -> bool {
    &&& (r == cycles)
    &&& (post.wf())
    &&& (post.bus == pre.bus)
    &&& (latches_kept(pre, post))
    &&& (({
                let a0 = pre.registers.spec_r8(destination);
                let v = pre.bus.spec_read(pre.registers.spec_r16(source));
                let cin = f_c(pre.registers.f);
                let nv = sum8c(a0, v, cin);
                &&& post.registers == (Registers {
                    f: post.registers.f,
                    ..pre.registers.spec_with_r8(destination, nv)
                })
                &&& f_z(post.registers.f) == (sum8c(a0, v, cin) == 0)
                &&& f_n(post.registers.f) == false
                &&& f_h(post.registers.f) == (a0 % 16 + v % 16 + (if cin { 1int } else { 0 }) > 15)
                &&& f_c(post.registers.f) == (a0 + v + (if cin { 1int } else { 0 }) > 255)
        }))
}

/// What `adc_rv` does, as a relation between the processor before
/// and after, with the names and the cycle cost the opcode selects.
pub open spec fn adc_rv_rel(pre: CPU, post: CPU, destination: RegisterName, cycles: u8, r: u8) -> bool {
    &&& (r == cycles)
    &&& (post.wf())
    &&& (post.bus == pre.bus)
    &&& (latches_kept(pre, post))
    &&& (({
                let a0 = pre.registers.spec_r8(destination);
                let v = pre.bus.spec_read(pre.registers.pc);
                let cin = f_c(pre.registers.f);
                let nv = sum8c(a0, v, cin);
                &&& post.registers == (Registers {
                    f: post.registers.f,
                    ..(Registers { pc: wadd16(pre.registers.pc, 1), ..pre.registers }).spec_with_r8(destination, nv)
                })
                &&& f_z(post.registers.f) == (sum8c(a0, v, cin) == 0)
                &&& f_n(post.registers.f) == false
                &&& f_h(post.registers.f) == (a0 % 16 + v % 16 + (if cin { 1int } else { 0 }) > 15)
                &&& f_c(post.registers.f) == (a0 + v + (if cin { 1int } else { 0 }) > 255)
        }))
}

/// What `sub_rr` does, as a relation between the processor before
/// and after, with the names and the cycle cost the opcode selects.
pub open spec fn sub_rr_rel(pre: CPU, post: CPU, destination: RegisterName, source: RegisterName, cycles: u8, r: u8) -> bool {
    &&& (r == cycles)
    &&& (post.wf())
    &&& (post.bus == pre.bus)
    &&& (latches_kept(pre, post))
    &&& (({
                let a0 = pre.registers.spec_r8(destination);
                let v = pre.registers.spec_r8(source);
                let nv = diff8(a0, v);
                &&& post.registers == (Registers {
                    f: post.registers.f,
                    ..pre.registers.spec_with_r8(destination, nv)
                })
                &&& f_z(post.registers.f) == (diff8(a0, v) == 0)
                &&& f_n(post.registers.f) == true
                &&& f_h(post.registers.f) == (a0 % 16 < v % 16)
                &&& f_c(post.registers.f) == (a0 < v)
        }))
}

/// What `sub_rm` does, as a relation between the processor before
/// and after, with the names and the cycle cost the opcode selects.
pub open spec fn sub_rm_rel(pre: CPU, post: CPU, destination: RegisterName, source: RegisterName, cycles: u8, r: u8) -> bool {
    &&& (r == cycles)
    &&& (post.wf())
    &&& (post.bus == pre.bus)
    &&& (latches_kept(pre, post))
    &&& (({
                let a0 = pre.registers.spec_r8(destination);
                let v = pre.bus.spec_read(pre.registers.spec_r16(source));
                let nv = diff8(a0, v);
                &&& post.registers == (Registers {
                    f: post.registers.f,
                    ..pre.registers.spec_with_r8(destination, nv)
                })
                &&& f_z(post.registers.f) == (diff8(a0, v) == 0)
                &&& f_n(post.registers.f) == true
                &&& f_h(post.registers.f) == (a0 % 16 < v % 16)
                &&& f_c(post.registers.f) == (a0 < v)
        }))
}

/// What `sub_rv` does, as a relation between the processor before
/// and after, with the names and the cycle cost the opcode selects.
pub open spec fn sub_rv_rel(pre: CPU, post: CPU, destination: RegisterName, cycles: u8, r: u8) -> bool {
    &&& (r == cycles)
    &&& (post.wf())
    &&& (post.bus == pre.bus)
    &&& (latches_kept(pre, post))
    &&& (({
                let a0 = pre.registers.spec_r8(destination);
                let v = pre.bus.spec_read(pre.registers.pc);
                let nv = diff8(a0, v);
                &&& post.registers == (Registers {
                    f: post.registers.f,
                    ..(Registers { pc: wadd16(pre.registers.pc, 1), ..pre.registers }).spec_with_r8(destination, nv)
                })
                &&& f_z(post.registers.f) == (diff8(a0, v) == 0)
                &&& f_n(post.registers.f) == true
                &&& f_h(post.registers.f) == (a0 % 16 < v % 16)
                &&& f_c(post.registers.f) == (a0 < v)
        }))
}

/// What `sbc_rr` does, as a relation between the processor before
/// and after, with the names and the cycle cost the opcode selects.
pub open spec fn sbc_rr_rel(pre: CPU, post: CPU, destination: RegisterName, source: RegisterName, cycles: u8, r: u8) -> bool {
    &&& (r == cycles)
    &&& (post.wf())
    &&& (post.bus == pre.bus)
    &&& (latches_kept(pre, post))
    &&& (({
                let a0 = pre.registers.spec_r8(destination);
                let v = pre.registers.spec_r8(source);
                let cin = f_c(pre.registers.f);
                let nv = diff8b(a0, v, cin);
                &&& post.registers == (Registers {
                    f: post.registers.f,
                    ..pre.registers.spec_with_r8(destination, nv)
                })
                &&& f_z(post.registers.f) == (diff8b(a0, v, cin) == 0)
                &&& f_n(post.registers.f) == true
                &&& f_h(post.registers.f) == (a0 % 16 - v % 16 - (if cin { 1int } else { 0 }) < 0)
                &&& f_c(post.registers.f) == (a0 - v - (if cin { 1int } else { 0 }) < 0)
        }))
}

/// What `sbc_rm` does, as a relation between the processor before
/// and after, with the names and the cycle cost the opcode selects.
pub open spec fn sbc_rm_rel(pre: CPU, post: CPU, destination: RegisterName, source: RegisterName, cycles: u8, r: u8) -> bool {
    &&& (r == cycles)
    &&& (post.wf())
    &&& (post.bus == pre.bus)
    &&& (latches_kept(pre, post))
    &&& (({
                let a0 = pre.registers.spec_r8(destination);
                let v = pre.bus.spec_read(pre.registers.spec_r16(source));
                let cin = f_c(pre.registers.f);
                let nv = diff8b(a0, v, cin);
                &&& post.registers == (Registers {
                    f: post.registers.f,
                    ..pre.registers.spec_with_r8(destination, nv)
                })
                &&& f_z(post.registers.f) == (diff8b(a0, v, cin) == 0)
                &&& f_n(post.registers.f) == true
                &&& f_h(post.registers.f) == (a0 % 16 - v % 16 - (if cin { 1int } else { 0 }) < 0)
                &&& f_c(post.registers.f) == (a0 - v - (if cin { 1int } else { 0 }) < 0)
        }))
}

/// What `sbc_rv` does, as a relation between the processor before
/// and after, with the names and the cycle cost the opcode selects.
pub open spec fn sbc_rv_rel(pre: CPU, post: CPU, destination: RegisterName, cycles: u8, r: u8) -> bool {
    &&& (r == cycles)
    &&& (post.wf())
    &&& (post.bus == pre.bus)
    &&& (latches_kept(pre, post))
    &&& (({
                let a0 = pre.registers.spec_r8(destination);
                let v = pre.bus.spec_read(pre.registers.pc);
                let cin = f_c(pre.registers.f);
                let nv = diff8b(a0, v, cin);
                &&& post.registers == (Registers {
                    f: post.registers.f,
                    ..(Registers { pc: wadd16(pre.registers.pc, 1), ..pre.registers }).spec_with_r8(destination, nv)
                })
                &&& f_z(post.registers.f) == (diff8b(a0, v, cin) == 0)
                &&& f_n(post.registers.f) == true
                &&& f_h(post.registers.f) == (a0 % 16 - v % 16 - (if cin { 1int } else { 0 }) < 0)
                &&& f_c(post.registers.f) == (a0 - v - (if cin { 1int } else { 0 }) < 0)
        }))
}

/// What `and_rr` does, as a relation between the processor before
/// and after, with the names and the cycle cost the opcode selects.
pub open spec fn and_rr_rel(pre: CPU, post: CPU, destination: RegisterName, source: RegisterName, cycles: u8, r: u8) -> bool {
    &&& (r == cycles)
    &&& (post.wf())
    &&& (post.bus == pre.bus)
    &&& (latches_kept(pre, post))
    &&& (({
                let a0 = pre.registers.spec_r8(destination);
                let v = pre.registers.spec_r8(source);
                let nv = (a0 & v);
                &&& post.registers == (Registers {
                    f: post.registers.f,
                    ..pre.registers.spec_with_r8(destination, nv)
                })
                &&& f_z(post.registers.f) == ((a0 & v) == 0)
                &&& f_n(post.registers.f) == false
                &&& f_h(post.registers.f) == true
                &&& f_c(post.registers.f) == false
        }))
}

/// What `and_rm` does, as a relation between the processor before
/// and after, with the names and the cycle cost the opcode selects.
pub open spec fn and_rm_rel(pre: CPU, post: CPU, destination: RegisterName, source: RegisterName, cycles: u8, r: u8) -> bool {
    &&& (r == cycles)
    &&& (post.wf())
    &&& (post.bus == pre.bus)
    &&& (latches_kept(pre, post))
    &&& (({
                let a0 = pre.registers.spec_r8(destination);
                let v = pre.bus.spec_read(pre.registers.spec_r16(source));
                let nv = (a0 & v);
                &&& post.registers == (Registers {
                    f: post.registers.f,
                    ..pre.registers.spec_with_r8(destination, nv)
                })
                &&& f_z(post.registers.f) == ((a0 & v) == 0)
                &&& f_n(post.registers.f) == false
                &&& f_h(post.registers.f) == true
                &&& f_c(post.registers.f) == false
        }))
}

/// What `and_rv` does, as a relation between the processor before
/// and after, with the names and the cycle cost the opcode selects.
pub open spec fn and_rv_rel(pre: CPU, post: CPU, destination: RegisterName, cycles: u8, r: u8) -> bool {
    &&& (r == cycles)
    &&& (post.wf())
    &&& (post.bus == pre.bus)
    &&& (latches_kept(pre, post))
    &&& (({
                let a0 = pre.registers.spec_r8(destination);
                let v = pre.bus.spec_read(pre.registers.pc);
                let nv = (a0 & v);
                &&& post.registers == (Registers {
                    f: post.registers.f,
                    ..(Registers { pc: wadd16(pre.registers.pc, 1), ..pre.registers }).spec_with_r8(destination, nv)
                })
                &&& f_z(post.registers.f) == ((a0 & v) == 0)
                &&& f_n(post.registers.f) == false
                &&& f_h(post.registers.f) == true
                &&& f_c(post.registers.f) == false
        }))
}

/// What `xor_rr` does, as a relation between the processor before
/// and after, with the names and the cycle cost the opcode selects.
pub open spec fn xor_rr_rel(pre: CPU, post: CPU, destination: RegisterName, source: RegisterName, cycles: u8, r: u8) -> bool {
    &&& (r == cycles)
    &&& (post.wf())
    &&& (post.bus == pre.bus)
    &&& (latches_kept(pre, post))
    &&& (({
                let a0 = pre.registers.spec_r8(destination);
                let v = pre.registers.spec_r8(source);
                let nv = (a0 ^ v);
                &&& post.registers == (Registers {
                    f: post.registers.f,
                    ..pre.registers.spec_with_r8(destination, nv)
                })
                &&& f_z(post.registers.f) == ((a0 ^ v) == 0)
                &&& f_n(post.registers.f) == false
                &&& f_h(post.registers.f) == false
                &&& f_c(post.registers.f) == false
        }))
}

/// What `xor_rm` does, as a relation between the processor before
/// and after, with the names and the cycle cost the opcode selects.
pub open spec fn xor_rm_rel(pre: CPU, post: CPU, destination: RegisterName, source: RegisterName, cycles: u8, r: u8) -> bool {
    &&& (r == cycles)
    &&& (post.wf())
    &&& (post.bus == pre.bus)
    &&& (latches_kept(pre, post))
    &&& (({
                let a0 = pre.registers.spec_r8(destination);
                let v = pre.bus.spec_read(pre.registers.spec_r16(source));
                let nv = (a0 ^ v);
                &&& post.registers == (Registers {
                    f: post.registers.f,
                    ..pre.registers.spec_with_r8(destination, nv)
                })
                &&& f_z(post.registers.f) == ((a0 ^ v) == 0)
                &&& f_n(post.registers.f) == false
                &&& f_h(post.registers.f) == false
                &&& f_c(post.registers.f) == false
        }))
}

/// What `xor_rv` does, as a relation between the processor before
/// and after, with the names and the cycle cost the opcode selects.
pub open spec fn xor_rv_rel(pre: CPU, post: CPU, destination: RegisterName, cycles: u8, r: u8) -> bool {
    &&& (r == cycles)
    &&& (post.wf())
    &&& (post.bus == pre.bus)
    &&& (latches_kept(pre, post))
    &&& (({
                let a0 = pre.registers.spec_r8(destination);
                let v = pre.bus.spec_read(pre.registers.pc);
                let nv = (a0 ^ v);
                &&& post.registers == (Registers {
                    f: post.registers.f,
                    ..(Registers { pc: wadd16(pre.registers.pc, 1), ..pre.registers }).spec_with_r8(destination, nv)
                })
                &&& f_z(post.registers.f) == ((a0 ^ v) == 0)
                &&& f_n(post.registers.f) == false
                &&& f_h(post.registers.f) == false
                &&& f_c(post.registers.f) == false
        }))
}

/// What `or_rr` does, as a relation between the processor before
/// and after, with the names and the cycle cost the opcode selects.
pub open spec fn or_rr_rel(pre: CPU, post: CPU, destination: RegisterName, source: RegisterName, cycles: u8, r: u8) -> bool {
    &&& (r == cycles)
    &&& (post.wf())
    &&& (post.bus == pre.bus)
    &&& (latches_kept(pre, post))
    &&& (({
                let a0 = pre.registers.spec_r8(destination);
                let v = pre.registers.spec_r8(source);
                let nv = (a0 | v);
                &&& post.registers == (Registers {
                    f: post.registers.f,
                    ..pre.registers.spec_with_r8(destination, nv)
                })
                &&& f_z(post.registers.f) == ((a0 | v) == 0)
                &&& f_n(post.registers.f) == false
                &&& f_h(post.registers.f) == false
                &&& f_c(post.registers.f) == false
        }))
}

/// What `or_rm` does, as a relation between the processor before
/// and after, with the names and the cycle cost the opcode selects.
pub open spec fn or_rm_rel(pre: CPU, post: CPU, destination: RegisterName, source: RegisterName, cycles: u8, r: u8) -> bool {
    &&& (r == cycles)
    &&& (post.wf())
    &&& (post.bus == pre.bus)
    &&& (latches_kept(pre, post))
    &&& (({
                let a0 = pre.registers.spec_r8(destination);
                let v = pre.bus.spec_read(pre.registers.spec_r16(source));
                let nv = (a0 | v);
                &&& post.registers == (Registers {
                    f: post.registers.f,
                    ..pre.registers.spec_with_r8(destination, nv)
                })
                &&& f_z(post.registers.f) == ((a0 | v) == 0)
                &&& f_n(post.registers.f) == false
                &&& f_h(post.registers.f) == false
                &&& f_c(post.registers.f) == false
        }))
}

/// What `or_rv` does, as a relation between the processor before
/// and after, with the names and the cycle cost the opcode selects.
pub open spec fn or_rv_rel(pre: CPU, post: CPU, destination: RegisterName, cycles: u8, r: u8) -> bool {
    &&& (r == cycles)
    &&& (post.wf())
    &&& (post.bus == pre.bus)
    &&& (latches_kept(pre, post))
    &&& (({
                let a0 = pre.registers.spec_r8(destination);
                let v = pre.bus.spec_read(pre.registers.pc);
                let nv = (a0 | v);
                &&& post.registers == (Registers {
                    f: post.registers.f,
                    ..(Registers { pc: wadd16(pre.registers.pc, 1), ..pre.registers }).spec_with_r8(destination, nv)
                })
                &&& f_z(post.registers.f) == ((a0 | v) == 0)
                &&& f_n(post.registers.f) == false
                &&& f_h(post.registers.f) == false
                &&& f_c(post.registers.f) == false
        }))
}

/// What `add_rr` does, as a relation between the processor before
/// and after, with the names and the cycle cost the opcode selects.
pub open spec fn add_rr_rel(pre: CPU, post: CPU, destination: RegisterName, source: RegisterName, cycles: u8, r: u8) -> bool {
    &&& (r == cycles)
    &&& (post.wf())
    &&& (post.bus == pre.bus)
    &&& (latches_kept(pre, post))
    &&& (source.spec_is_u16_registers() ==> ({
            let d0 = pre.registers.spec_r16(destination);
            let v = pre.registers.spec_r16(source);
            &&& post.registers == (Registers {
                f: post.registers.f,
                ..pre.registers.spec_with_r16(destination, wadd16(d0, v))
            })
            &&& f_z(post.registers.f) == f_z(pre.registers.f)
            &&& f_n(post.registers.f) == false
            &&& f_h(post.registers.f) == (d0 % 4096 + v % 4096 > 4095)
            &&& f_c(post.registers.f) == (d0 + v > 65535)
        }))
    &&& (!source.spec_is_u16_registers() ==> ({
            let a0 = pre.registers.spec_r8(destination);
            let v = pre.registers.spec_r8(source);
            let nv = sum8(a0, v);
            &&& post.registers == (Registers {
                f: post.registers.f,
                ..pre.registers.spec_with_r8(destination, nv)
            })
            &&& f_z(post.registers.f) == (nv == 0)
            &&& f_n(post.registers.f) == false
            &&& f_h(post.registers.f) == (a0 % 16 + v % 16 > 15)
            &&& f_c(post.registers.f) == (a0 + v > 255)
        }))
}

/// What `cp_rr` does, as a relation between the processor before
/// and after, with the names and the cycle cost the opcode selects.
pub open spec fn cp_rr_rel(pre: CPU, post: CPU, destination: RegisterName, source: RegisterName, cycles: u8, r: u8) -> bool {
    &&& (r == cycles)
    &&& (post.wf())
    &&& (post.bus == pre.bus)
    &&& (latches_kept(pre, post))
    &&& (({
            let a0 = pre.registers.spec_r8(destination);
            let v = pre.registers.spec_r8(source);
            &&& post.registers == (Registers {
                f: post.registers.f,
                ..pre.registers
            })
            &&& f_z(post.registers.f) == (a0 == v)
            &&& f_n(post.registers.f) == true
            &&& f_h(post.registers.f) == (a0 % 16 < v % 16)
            &&& f_c(post.registers.f) == (a0 < v)
        }))
}

/// What `cp_rm` does, as a relation between the processor before
/// and after, with the names and the cycle cost the opcode selects.
pub open spec fn cp_rm_rel(pre: CPU, post: CPU, destination: RegisterName, source: RegisterName, cycles: u8, r: u8) -> bool {
    &&& (r == cycles)
    &&& (post.wf())
    &&& (post.bus == pre.bus)
    &&& (latches_kept(pre, post))
    &&& (({
            let a0 = pre.registers.spec_r8(destination);
            let v = pre.bus.spec_read(pre.registers.spec_r16(source));
            &&& post.registers == (Registers {
                f: post.registers.f,
                ..pre.registers
            })
            &&& f_z(post.registers.f) == (a0 == v)
            &&& f_n(post.registers.f) == true
            &&& f_h(post.registers.f) == (a0 % 16 < v % 16)
            &&& f_c(post.registers.f) == (a0 < v)
        }))
}

/// What `cp_rv` does, as a relation between the processor before
/// and after, with the names and the cycle cost the opcode selects.
pub open spec fn cp_rv_rel(pre: CPU, post: CPU, register: RegisterName, cycles: u8, r: u8) -> bool {
    &&& (r == cycles)
    &&& (post.wf())
    &&& (post.bus == pre.bus)
    &&& (latches_kept(pre, post))
    &&& (({
            let a0 = pre.registers.spec_r8(register);
            let v = pre.bus.spec_read(pre.registers.pc);
            &&& post.registers == (Registers {
                f: post.registers.f,
                pc: wadd16(pre.registers.pc, 1),
                ..pre.registers
            })
            &&& f_z(post.registers.f) == (a0 == v)
            &&& f_n(post.registers.f) == true
            &&& f_h(post.registers.f) == (a0 % 16 < v % 16)
            &&& f_c(post.registers.f) == (a0 < v)
        }))
}

/// What `ld_rr` does, as a relation between the processor before
/// and after, with the names and the cycle cost the opcode selects.
pub open spec fn ld_rr_rel(pre: CPU, post: CPU, destination: RegisterName, source: RegisterName, cycles: u8, r: u8) -> bool {
    &&& (r == cycles)
    &&& (post.wf())
    &&& (post.bus == pre.bus)
    &&& (latches_kept(pre, post))
    &&& (destination.spec_is_u16_registers() && source.spec_is_u16_registers() ==> post.registers == pre.registers.spec_with_r16(
            destination,
            pre.registers.spec_r16(source),
        ))
    &&& (!(destination.spec_is_u16_registers() && source.spec_is_u16_registers()) ==> post.registers == pre.registers.spec_with_r8(
            destination,
            pre.registers.spec_r8(source),
        ))
}

/// What `ld_mr` does, as a relation between the processor before
/// and after, with the names and the cycle cost the opcode selects.
pub open spec fn ld_mr_rel(pre: CPU, post: CPU, destination: RegisterName, source: RegisterName, direction: Direction, cycles: u8, r: u8) -> bool {
    &&& (r == cycles)
    &&& (post.wf())
    &&& (latches_kept(pre, post))
    &&& (Bus::spec_write_rel(
            pre.bus,
            post.bus,
            pre.registers.spec_r16(destination),
            pre.registers.spec_r8(source),
        ))
    &&& (post.registers == (match direction {
            Direction::Increment => pre.registers.spec_with_r16(
                destination,
                wadd16(pre.registers.spec_r16(destination), 1),
            ),
            Direction::Decrement => pre.registers.spec_with_r16(
                destination,
                wsub16(pre.registers.spec_r16(destination), 1),
            ),
            Direction::Stay => pre.registers,
        }))
}

/// What `ld_rm` does, as a relation between the processor before
/// and after, with the names and the cycle cost the opcode selects.
pub open spec fn ld_rm_rel(pre: CPU, post: CPU, destination: RegisterName, source: RegisterName, direction: Direction, cycles: u8, r: u8) -> bool {
    &&& (r == cycles)
    &&& (post.wf())
    &&& (post.bus == pre.bus)
    &&& (latches_kept(pre, post))
    &&& (({
            let loaded = pre.registers.spec_with_r8(
                destination,
                pre.bus.spec_read(pre.registers.spec_r16(source)),
            );
            post.registers == (match direction {
                Direction::Increment => loaded.spec_with_r16(
                    source,
                    wadd16(pre.registers.spec_r16(source), 1),
                ),
                Direction::Decrement => loaded.spec_with_r16(
                    source,
                    wsub16(pre.registers.spec_r16(source), 1),
                ),
                Direction::Stay => loaded,
            })
        }))
}

/// What `ldi_a_mhl` does, as a relation between the processor before
/// and after, with the names and the cycle cost the opcode selects.
pub open spec fn ldi_a_mhl_rel(pre: CPU, post: CPU, cycles: u8, r: u8) -> bool {
    &&& (r == cycles)
    &&& (post.wf())
    &&& (post.bus == pre.bus)
    &&& (latches_kept(pre, post))
    &&& (({
            let hl = pair(pre.registers.h, pre.registers.l);
            post.registers == (Registers {
                a: pre.bus.spec_read(hl),
                h: (wadd16(hl, 1) / 256) as u8,
                l: (wadd16(hl, 1) % 256) as u8,
                ..pre.registers
            })
        }))
}

/// What `ld_ru16` does, as a relation between the processor before
/// and after, with the names and the cycle cost the opcode selects.
pub open spec fn ld_ru16_rel(pre: CPU, post: CPU, destination: RegisterName, cycles: u8, r: u8) -> bool {
    &&& (r == cycles)
    &&& (post.wf())
    &&& (post.bus == pre.bus)
    &&& (latches_kept(pre, post))
    &&& (post.registers == (Registers {
            pc: wadd16(pre.registers.pc, 2),
            ..pre.registers
        }).spec_with_r16(
            destination,
            pair(
                pre.bus.spec_read(wadd16(pre.registers.pc, 1)),
                pre.bus.spec_read(pre.registers.pc),
            ),
        ))
}

/// What `ld_ru8` does, as a relation between the processor before
/// and after, with the names and the cycle cost the opcode selects.
pub open spec fn ld_ru8_rel(pre: CPU, post: CPU, destination: RegisterName, cycles: u8, r: u8) -> bool {
    &&& (r == cycles)
    &&& (post.wf())
    &&& (post.bus == pre.bus)
    &&& (latches_kept(pre, post))
    &&& (post.registers == (Registers {
            pc: wadd16(pre.registers.pc, 1),
            ..pre.registers
        }).spec_with_r8(destination, pre.bus.spec_read(pre.registers.pc)))
}

/// What `ld_m_u8` does, as a relation between the processor before
/// and after, with the names and the cycle cost the opcode selects.
pub open spec fn ld_m_u8_rel(pre: CPU, post: CPU, register: RegisterName, cycles: u8, r: u8) -> bool {
    &&& (r == cycles)
    &&& (post.wf())
    &&& (latches_kept(pre, post))
    &&& (post.registers == (Registers {
            pc: wadd16(pre.registers.pc, 1),
            ..pre.registers
        }))
    &&& (Bus::spec_write_rel(
            pre.bus,
            post.bus,
            pre.registers.spec_r16(register),
            pre.bus.spec_read(pre.registers.pc),
        ))
}

/// What `ret_if` does, as a relation between the processor before
/// and after, with the names and the cycle cost the opcode selects.
pub open spec fn ret_if_rel(pre: CPU, post: CPU, flag: Flag, condition: bool, cycles: u8, r: u8) -> bool {
    &&& (post.wf())
    &&& (post.bus == pre.bus)
    &&& (latches_kept(pre, post))
    &&& (({
            let taken = (match flag {
                Flag::Z => f_z(pre.registers.f),
                Flag::N => f_n(pre.registers.f),
                Flag::H => f_h(pre.registers.f),
                Flag::C => f_c(pre.registers.f),
            }) == condition;
            &&& r == (if taken { (cycles + 12) as u8 } else { cycles })
            &&& post.registers == (if taken {
                Registers {
                    pc: pair(
                        pre.bus.spec_read(wadd16(pre.registers.sp, 1)),
                        pre.bus.spec_read(pre.registers.sp),
                    ),
                    sp: wadd16(pre.registers.sp, 2),
                    ..pre.registers
                }
            } else {
                pre.registers
            })
        }))
}

/// What `ret` does, as a relation between the processor before
/// and after, with the names and the cycle cost the opcode selects.
pub open spec fn ret_rel(pre: CPU, post: CPU, cycles: u8, r: u8) -> bool {
    &&& (r == cycles)
    &&& (post.wf())
    &&& (post.bus == pre.bus)
    &&& (latches_kept(pre, post))
    &&& (post.registers == (Registers {
            pc: pair(
                pre.bus.spec_read(wadd16(pre.registers.sp, 1)),
                pre.bus.spec_read(pre.registers.sp),
            ),
            sp: wadd16(pre.registers.sp, 2),
            ..pre.registers
        }))
}

/// What `jr_if` does, as a relation between the processor before
/// and after, with the names and the cycle cost the opcode selects.
pub open spec fn jr_if_rel(pre: CPU, post: CPU, flag: Flag, expected_state: bool, cycles: u8, r: u8) -> bool {
    &&& (post.wf())
    &&& (post.bus == pre.bus)
    &&& (latches_kept(pre, post))
    &&& (({
            let taken = (match flag {
                Flag::Z => f_z(pre.registers.f),
                Flag::N => f_n(pre.registers.f),
                Flag::H => f_h(pre.registers.f),
                Flag::C => f_c(pre.registers.f),
            }) == expected_state;
            let stepped = wadd16(pre.registers.pc, 1);
            let disp = pre.bus.spec_read(pre.registers.pc) as i8;
            &&& r == (if taken { (cycles + 4) as u8 } else { cycles })
            &&& post.registers == (Registers {
                pc: if taken { wadd16(stepped, disp as u16) } else { stepped },
                ..pre.registers
            })
        }))
}

/// What `jr` does, as a relation between the processor before
/// and after, with the names and the cycle cost the opcode selects.
pub open spec fn jr_rel(pre: CPU, post: CPU, cycles: u8, r: u8) -> bool {
    &&& (r == cycles)
    &&& (post.wf())
    &&& (post.bus == pre.bus)
    &&& (latches_kept(pre, post))
    &&& (post.registers == (Registers {
            pc: wadd16(
                wadd16(pre.registers.pc, 1),
                pre.bus.spec_read(pre.registers.pc) as i8 as u16,
            ),
            ..pre.registers
        }))
}

/// What `rlca` does, as a relation between the processor before
/// and after, with the names and the cycle cost the opcode selects.
pub open spec fn rlca_rel(pre: CPU, post: CPU, cycles: u8, r: u8) -> bool {
    &&& (r == cycles)
    &&& (post.wf())
    &&& (post.bus == pre.bus)
    &&& (latches_kept(pre, post))
    &&& (({
            let a = pre.registers.a;
            &&& post.registers == (Registers {
                a: ((a * 2) % 256 + a / 128) as u8,
                f: post.registers.f,
                ..pre.registers
            })
            &&& f_z(post.registers.f) == false
            &&& f_n(post.registers.f) == false
            &&& f_h(post.registers.f) == false
            &&& f_c(post.registers.f) == (a >= 128)
        }))
}

/// What `rla` does, as a relation between the processor before
/// and after, with the names and the cycle cost the opcode selects.
pub open spec fn rla_rel(pre: CPU, post: CPU, cycles: u8, r: u8) -> bool {
    &&& (r == cycles)
    &&& (post.wf())
    &&& (post.bus == pre.bus)
    &&& (latches_kept(pre, post))
    &&& (({
            let a = pre.registers.a;
            let cin: int = if f_c(pre.registers.f) { 1 } else { 0 };
            &&& post.registers == (Registers {
                a: ((a * 2) % 256 + cin) as u8,
                f: post.registers.f,
                ..pre.registers
            })
            &&& f_z(post.registers.f) == false
            &&& f_n(post.registers.f) == false
            &&& f_h(post.registers.f) == false
            &&& f_c(post.registers.f) == (a >= 128)
        }))
}

/// What `rra` does, as a relation between the processor before
/// and after, with the names and the cycle cost the opcode selects.
pub open spec fn rra_rel(pre: CPU, post: CPU, cycles: u8, r: u8) -> bool {
    &&& (r == cycles)
    &&& (post.wf())
    &&& (post.bus == pre.bus)
    &&& (latches_kept(pre, post))
    &&& (({
            let a = pre.registers.a;
            let cin: int = if f_c(pre.registers.f) { 128 } else { 0 };
            &&& post.registers == (Registers {
                a: (a / 2 + cin) as u8,
                f: post.registers.f,
                ..pre.registers
            })
            &&& f_z(post.registers.f) == false
            &&& f_n(post.registers.f) == false
            &&& f_h(post.registers.f) == false
            &&& f_c(post.registers.f) == (a % 2 == 1)
        }))
}

/// What `rrca` does, as a relation between the processor before
/// and after, with the names and the cycle cost the opcode selects.
pub open spec fn rrca_rel(pre: CPU, post: CPU, cycles: u8, r: u8) -> bool {
    &&& (r == cycles)
    &&& (post.wf())
    &&& (post.bus == pre.bus)
    &&& (latches_kept(pre, post))
    &&& (({
            let a = pre.registers.a;
            &&& post.registers == (Registers {
                a: (a / 2 + (a % 2) * 128) as u8,
                f: post.registers.f,
                ..pre.registers
            })
            &&& f_z(post.registers.f) == false
            &&& f_n(post.registers.f) == false
            &&& f_h(post.registers.f) == false
            &&& f_c(post.registers.f) == (a % 2 == 1)
        }))
}

/// What `daa` does, as a relation between the processor before
/// and after, with the names and the cycle cost the opcode selects.
pub open spec fn daa_rel(pre: CPU, post: CPU, cycles: u8, r: u8) -> bool {
    &&& (r == cycles)
    &&& (post.wf())
    &&& (post.bus == pre.bus)
    &&& (latches_kept(pre, post))
    &&& (({
            let out = spec_daa(
                pre.registers.a,
                f_n(pre.registers.f),
                f_h(pre.registers.f),
                f_c(pre.registers.f),
            );
            &&& post.registers == (Registers {
                a: out.0,
                f: post.registers.f,
                ..pre.registers
            })
            &&& f_z(post.registers.f) == (out.0 == 0)
            &&& f_n(post.registers.f) == f_n(pre.registers.f)
            &&& f_h(post.registers.f) == false
            &&& f_c(post.registers.f) == out.1
        }))
}

/// What `cpl` does, as a relation between the processor before
/// and after, with the names and the cycle cost the opcode selects.
pub open spec fn cpl_rel(pre: CPU, post: CPU, cycles: u8, r: u8) -> bool {
    &&& (r == cycles)
    &&& (post.wf())
    &&& (post.bus == pre.bus)
    &&& (latches_kept(pre, post))
    &&& (post.registers == (Registers {
            a: (255 - pre.registers.a) as u8,
            f: post.registers.f,
            ..pre.registers
        }))
    &&& (f_z(post.registers.f) == f_z(pre.registers.f))
    &&& (f_n(post.registers.f) == true)
    &&& (f_h(post.registers.f) == true)
    &&& (f_c(post.registers.f) == f_c(pre.registers.f))
}

/// What `scf` does, as a relation between the processor before
/// and after, with the names and the cycle cost the opcode selects.
pub open spec fn scf_rel(pre: CPU, post: CPU, cycles: u8, r: u8) -> bool {
    &&& (r == cycles)
    &&& (post.wf())
    &&& (post.bus == pre.bus)
    &&& (latches_kept(pre, post))
    &&& (post.registers == (Registers { f: post.registers.f, ..pre.registers }))
    &&& (f_z(post.registers.f) == f_z(pre.registers.f))
    &&& (f_n(post.registers.f) == false)
    &&& (f_h(post.registers.f) == false)
    &&& (f_c(post.registers.f) == true)
}

/// What `ccf` does, as a relation between the processor before
/// and after, with the names and the cycle cost the opcode selects.
pub open spec fn ccf_rel(pre: CPU, post: CPU, cycles: u8, r: u8) -> bool {
    &&& (r == cycles)
    &&& (post.wf())
    &&& (post.bus == pre.bus)
    &&& (latches_kept(pre, post))
    &&& (post.registers == (Registers { f: post.registers.f, ..pre.registers }))
    &&& (f_z(post.registers.f) == f_z(pre.registers.f))
    &&& (f_n(post.registers.f) == false)
    &&& (f_h(post.registers.f) == false)
    &&& (f_c(post.registers.f) == !f_c(pre.registers.f))
}

/// What `inc_r` does, as a relation between the processor before
/// and after, with the names and the cycle cost the opcode selects.
pub open spec fn inc_r_rel(pre: CPU, post: CPU, register: RegisterName, cycles: u8, r: u8) -> bool {
    &&& (r == cycles)
    &&& (post.wf())
    &&& (post.bus == pre.bus)
    &&& (latches_kept(pre, post))
    &&& (register.spec_is_u16_registers() ==> post.registers == pre.registers.spec_with_r16(register, wadd16(pre.registers.spec_r16(register), 1)))
    &&& (!register.spec_is_u16_registers() ==> ({
            let v = pre.registers.spec_r8(register);
            let nv = sum8(v, 1);
            &&& post.registers == (Registers {
                f: post.registers.f,
                ..pre.registers.spec_with_r8(register, nv)
            })
            &&& f_z(post.registers.f) == (nv == 0)
            &&& f_n(post.registers.f) == false
            &&& f_h(post.registers.f) == (v % 16 == 15)
            &&& f_c(post.registers.f) == f_c(pre.registers.f)
        }))
}

/// What `inc_m` does, as a relation between the processor before
/// and after, with the names and the cycle cost the opcode selects.
pub open spec fn inc_m_rel(pre: CPU, post: CPU, register: RegisterName, cycles: u8, r: u8) -> bool {
    &&& (r == cycles)
    &&& (post.wf())
    &&& (latches_kept(pre, post))
    &&& (({
            let v = pre.bus.spec_read(pre.registers.spec_r16(register));
            let nv = sum8(v, 1);
            &&& Bus::spec_write_rel(
                pre.bus,
                post.bus,
                pre.registers.spec_r16(register),
                nv,
            )
            &&& post.registers == (Registers {
                f: post.registers.f,
                ..pre.registers
            })
            &&& f_z(post.registers.f) == (nv == 0)
            &&& f_n(post.registers.f) == false
            &&& f_h(post.registers.f) == (v % 16 == 15)
            &&& f_c(post.registers.f) == f_c(pre.registers.f)
        }))
}

/// What `dec_r` does, as a relation between the processor before
/// and after, with the names and the cycle cost the opcode selects.
pub open spec fn dec_r_rel(pre: CPU, post: CPU, register: RegisterName, cycles: u8, r: u8) -> bool {
    &&& (r == cycles)
    &&& (post.wf())
    &&& (post.bus == pre.bus)
    &&& (latches_kept(pre, post))
    &&& (register.spec_is_u16_registers() ==> post.registers == pre.registers.spec_with_r16(register, wsub16(pre.registers.spec_r16(register), 1)))
    &&& (!register.spec_is_u16_registers() ==> ({
            let v = pre.registers.spec_r8(register);
            let nv = diff8(v, 1);
            &&& post.registers == (Registers {
                f: post.registers.f,
                ..pre.registers.spec_with_r8(register, nv)
            })
            &&& f_z(post.registers.f) == (nv == 0)
            &&& f_n(post.registers.f) == true
            &&& f_h(post.registers.f) == (v % 16 == 0)
            &&& f_c(post.registers.f) == f_c(pre.registers.f)
        }))
}

/// What `dec_m` does, as a relation between the processor before
/// and after, with the names and the cycle cost the opcode selects.
pub open spec fn dec_m_rel(pre: CPU, post: CPU, register: RegisterName, cycles: u8, r: u8) -> bool {
    &&& (r == cycles)
    &&& (post.wf())
    &&& (latches_kept(pre, post))
    &&& (({
            let v = pre.bus.spec_read(pre.registers.spec_r16(register));
            let nv = diff8(v, 1);
            &&& Bus::spec_write_rel(
                pre.bus,
                post.bus,
                pre.registers.spec_r16(register),
                nv,
            )
            &&& post.registers == (Registers {
                f: post.registers.f,
                ..pre.registers
            })
            &&& f_z(post.registers.f) == (nv == 0)
            &&& f_n(post.registers.f) == true
            &&& f_h(post.registers.f) == (v % 16 == 0)
            &&& f_c(post.registers.f) == f_c(pre.registers.f)
        }))
}

/// What `ld_u16_sp` does, as a relation between the processor before
/// and after, with the names and the cycle cost the opcode selects.
pub open spec fn ld_u16_sp_rel(pre: CPU, post: CPU, cycles: u8, r: u8) -> bool {
    &&& (r == cycles)
    &&& (post.wf())
    &&& (latches_kept(pre, post))
    &&& (post.registers == (Registers {
            pc: wadd16(pre.registers.pc, 2),
            ..pre.registers
        }))
}

/// What `pop_r` does, as a relation between the processor before
/// and after, with the names and the cycle cost the opcode selects.
pub open spec fn pop_r_rel(pre: CPU, post: CPU, register: RegisterName, cycles: u8, r: u8) -> bool {
    &&& (r == cycles)
    &&& (post.wf())
    &&& (post.bus == pre.bus)
    &&& (latches_kept(pre, post))
    &&& (post.registers == (Registers {
            sp: wadd16(pre.registers.sp, 2),
            ..pre.registers
        }).spec_with_r16(
            register,
            pair(
                pre.bus.spec_read(wadd16(pre.registers.sp, 1)),
                pre.bus.spec_read(pre.registers.sp),
            ),
        ))
}

/// What `push_r` does, as a relation between the processor before
/// and after, with the names and the cycle cost the opcode selects.
pub open spec fn push_r_rel(pre: CPU, post: CPU, register: RegisterName, cycles: u8, r: u8) -> bool {
    &&& (r == cycles)
    &&& (post.wf())
    &&& (latches_kept(pre, post))
    &&& (post.registers == (Registers {
            sp: wsub16(pre.registers.sp, 2),
            ..pre.registers
        }))
    &&& (exists|mid: Bus|
            #[trigger] Bus::spec_write_rel(
                pre.bus,
                mid,
                wsub16(pre.registers.sp, 1),
                (pre.registers.spec_r16(register) / 256) as u8,
            ) && Bus::spec_write_rel(
                mid,
                post.bus,
                wsub16(pre.registers.sp, 2),
                (pre.registers.spec_r16(register) % 256) as u8,
            ))
}

/// What `jp_if` does, as a relation between the processor before
/// and after, with the names and the cycle cost the opcode selects.
pub open spec fn jp_if_rel(pre: CPU, post: CPU, flag: Flag, condition: bool, cycles: u8, r: u8) -> bool {
    &&& (post.wf())
    &&& (post.bus == pre.bus)
    &&& (latches_kept(pre, post))
    &&& (({
            let taken = (match flag {
                Flag::Z => f_z(pre.registers.f),
                Flag::N => f_n(pre.registers.f),
                Flag::H => f_h(pre.registers.f),
                Flag::C => f_c(pre.registers.f),
            }) == condition;
            &&& r == (if taken { (cycles + 4) as u8 } else { cycles })
            &&& post.registers == (Registers {
                pc: if taken {
                    pair(
                        pre.bus.spec_read(wadd16(pre.registers.pc, 1)),
                        pre.bus.spec_read(pre.registers.pc),
                    )
                } else {
                    wadd16(pre.registers.pc, 2)
                },
                ..pre.registers
            })
        }))
}

/// What `jp` does, as a relation between the processor before
/// and after, with the names and the cycle cost the opcode selects.
pub open spec fn jp_rel(pre: CPU, post: CPU, cycles: u8, r: u8) -> bool {
    &&& (r == cycles)
    &&& (post.wf())
    &&& (post.bus == pre.bus)
    &&& (latches_kept(pre, post))
    &&& (post.registers == (Registers {
            pc: pair(
                pre.bus.spec_read(wadd16(pre.registers.pc, 1)),
                pre.bus.spec_read(pre.registers.pc),
            ),
            ..pre.registers
        }))
}

/// What `jp_r` does, as a relation between the processor before
/// and after, with the names and the cycle cost the opcode selects.
pub open spec fn jp_r_rel(pre: CPU, post: CPU, register: RegisterName, cycles: u8, r: u8) -> bool {
    &&& (r == cycles)
    &&& (post.wf())
    &&& (post.bus == pre.bus)
    &&& (latches_kept(pre, post))
    &&& (post.registers == (Registers {
            pc: pre.registers.spec_r16(register),
            ..pre.registers
        }))
}

/// What `call_if` does, as a relation between the processor before
/// and after, with the names and the cycle cost the opcode selects.
pub open spec fn call_if_rel(pre: CPU, post: CPU, flag: Flag, condition: bool, cycles: u8, r: u8) -> bool {
    &&& (post.wf())
    &&& (latches_kept(pre, post))
    &&& (({
            let taken = (match flag {
                Flag::Z => f_z(pre.registers.f),
                Flag::N => f_n(pre.registers.f),
                Flag::H => f_h(pre.registers.f),
                Flag::C => f_c(pre.registers.f),
            }) == condition;
            &&& r == (if taken { (cycles + 12) as u8 } else { cycles })
            &&& post.registers == (if taken {
                Registers {
                    pc: pair(
                        pre.bus.spec_read(wadd16(pre.registers.pc, 1)),
                        pre.bus.spec_read(pre.registers.pc),
                    ),
                    sp: wsub16(pre.registers.sp, 2),
                    ..pre.registers
                }
            } else {
                Registers { pc: wadd16(pre.registers.pc, 2), ..pre.registers }
            })
            &&& !taken ==> post.bus == pre.bus
        }))
}

/// What `call` does, as a relation between the processor before
/// and after, with the names and the cycle cost the opcode selects.
pub open spec fn call_rel(pre: CPU, post: CPU, cycles: u8, r: u8) -> bool {
    &&& (r == cycles)
    &&& (post.wf())
    &&& (latches_kept(pre, post))
    &&& (post.registers == (Registers {
            pc: pair(
                pre.bus.spec_read(wadd16(pre.registers.pc, 1)),
                pre.bus.spec_read(pre.registers.pc),
            ),
            sp: wsub16(pre.registers.sp, 2),
            ..pre.registers
        }))
}

/// What `rst` does, as a relation between the processor before
/// and after, with the names and the cycle cost the opcode selects.
pub open spec fn rst_rel(pre: CPU, post: CPU, address: u16, cycles: u8, r: u8) -> bool {
    &&& (r == cycles)
    &&& (post.wf())
    &&& (latches_kept(pre, post))
    &&& (post.registers == (Registers {
            pc: address,
            sp: wsub16(pre.registers.sp, 2),
            ..pre.registers
        }))
}

/// What `reti` does, as a relation between the processor before
/// and after, with the names and the cycle cost the opcode selects.
pub open spec fn reti_rel(pre: CPU, post: CPU, cycles: u8, r: u8) -> bool {
    &&& (r == cycles)
    &&& (post.wf())
    &&& (post.bus == pre.bus)
    &&& (post.is_halted == pre.is_halted)
    &&& (post.interrupt_enabled)
    &&& (post.registers == (Registers {
            pc: pair(
                pre.bus.spec_read(wadd16(pre.registers.sp, 1)),
                pre.bus.spec_read(pre.registers.sp),
            ),
            sp: wadd16(pre.registers.sp, 2),
            ..pre.registers
        }))
}

/// What `ld_ff00_u8_a` does, as a relation between the processor before
/// and after, with the names and the cycle cost the opcode selects.
pub open spec fn ld_ff00_u8_a_rel(pre: CPU, post: CPU, cycles: u8, r: u8) -> bool {
    &&& (r == cycles)
    &&& (post.wf())
    &&& (latches_kept(pre, post))
    &&& (post.registers == (Registers {
            pc: wadd16(pre.registers.pc, 1),
            ..pre.registers
        }))
    &&& (Bus::spec_write_rel(
            pre.bus,
            post.bus,
            wadd16(0xFF00, pre.bus.spec_read(pre.registers.pc) as u16),
            pre.registers.a,
        ))
}

/// What `ld_a_ff00_plus_u8` does, as a relation between the processor before
/// and after, with the names and the cycle cost the opcode selects.
pub open spec fn ld_a_ff00_plus_u8_rel(pre: CPU, post: CPU, cycles: u8, r: u8) -> bool {
    &&& (r == cycles)
    &&& (post.wf())
    &&& (post.bus == pre.bus)
    &&& (latches_kept(pre, post))
    &&& (post.registers == (Registers {
            a: pre.bus.spec_read(
                wadd16(0xFF00, pre.bus.spec_read(pre.registers.pc) as u16),
            ),
            pc: wadd16(pre.registers.pc, 1),
            ..pre.registers
        }))
}

/// What `ld_ff00_c_a` does, as a relation between the processor before
/// and after, with the names and the cycle cost the opcode selects.
pub open spec fn ld_ff00_c_a_rel(pre: CPU, post: CPU, cycles: u8, r: u8) -> bool {
    &&& (r == cycles)
    &&& (post.wf())
    &&& (latches_kept(pre, post))
    &&& (post.registers == pre.registers)
    &&& (Bus::spec_write_rel(
            pre.bus,
            post.bus,
            (0xFF00 + pre.registers.c) as u16,
            pre.registers.a,
        ))
}

/// What `ld_a_ff00_c` does, as a relation between the processor before
/// and after, with the names and the cycle cost the opcode selects.
pub open spec fn ld_a_ff00_c_rel(pre: CPU, post: CPU, cycles: u8, r: u8) -> bool {
    &&& (r == cycles)
    &&& (post.wf())
    &&& (post.bus == pre.bus)
    &&& (latches_kept(pre, post))
    &&& (post.registers == (Registers {
            a: pre.bus.spec_read((0xFF00 + pre.registers.c) as u16),
            ..pre.registers
        }))
}

/// What `ld_u16_a` does, as a relation between the processor before
/// and after, with the names and the cycle cost the opcode selects.
pub open spec fn ld_u16_a_rel(pre: CPU, post: CPU, cycles: u8, r: u8) -> bool {
    &&& (r == cycles)
    &&& (post.wf())
    &&& (latches_kept(pre, post))
    &&& (post.registers == (Registers {
            pc: wadd16(pre.registers.pc, 2),
            ..pre.registers
        }))
    &&& (Bus::spec_write_rel(
            pre.bus,
            post.bus,
            pair(
                pre.bus.spec_read(wadd16(pre.registers.pc, 1)),
                pre.bus.spec_read(pre.registers.pc),
            ),
            pre.registers.a,
        ))
}

/// What `add_sp_i8` does, as a relation between the processor before
/// and after, with the names and the cycle cost the opcode selects.
pub open spec fn add_sp_i8_rel(pre: CPU, post: CPU, cycles: u8, r: u8) -> bool {
    &&& (r == cycles)
    &&& (post.wf())
    &&& (post.bus == pre.bus)
    &&& (latches_kept(pre, post))
    &&& (({
            let sp = pre.registers.sp;
            let ext = pre.bus.spec_read(pre.registers.pc) as i8 as u16;
            &&& post.registers == (Registers {
                sp: wadd16(sp, ext),
                pc: wadd16(pre.registers.pc, 1),
                f: post.registers.f,
                ..pre.registers
            })
            &&& f_z(post.registers.f) == false
            &&& f_n(post.registers.f) == false
            &&& f_h(post.registers.f) == (sp % 16 + ext % 16 > 15)
            &&& f_c(post.registers.f) == (sp % 256 + ext % 256 > 255)
        }))
}

/// What `ld_mvr` does, as a relation between the processor before
/// and after, with the names and the cycle cost the opcode selects.
pub open spec fn ld_mvr_rel(pre: CPU, post: CPU, register: RegisterName, cycles: u8, r: u8) -> bool {
    &&& (r == cycles)
    &&& (post.wf())
    &&& (latches_kept(pre, post))
    &&& (post.registers == (Registers {
            pc: wadd16(pre.registers.pc, 2),
            ..pre.registers
        }))
    &&& (Bus::spec_write_rel(
            pre.bus,
            post.bus,
            pair(
                pre.bus.spec_read(wadd16(pre.registers.pc, 1)),
                pre.bus.spec_read(pre.registers.pc),
            ),
            pre.registers.spec_r8(register),
        ))
}

/// What `di` does, as a relation between the processor before
/// and after, with the names and the cycle cost the opcode selects.
pub open spec fn di_rel(pre: CPU, post: CPU, cycles: u8, r: u8) -> bool {
    &&& (r == cycles)
    &&& (post.registers == pre.registers)
    &&& (post.bus == pre.bus)
    &&& (post.is_halted == pre.is_halted)
    &&& (!post.interrupt_enabled)
}

/// What `ei` does, as a relation between the processor before
/// and after, with the names and the cycle cost the opcode selects.
pub open spec fn ei_rel(pre: CPU, post: CPU, cycles: u8, r: u8) -> bool {
    &&& (r == cycles)
    &&& (post.registers == pre.registers)
    &&& (post.bus == pre.bus)
    &&& (post.is_halted == pre.is_halted)
    &&& (post.interrupt_enabled)
}

/// What `ld_hl_spi8` does, as a relation between the processor before
/// and after, with the names and the cycle cost the opcode selects.
pub open spec fn ld_hl_spi8_rel(pre: CPU, post: CPU, cycles: u8, r: u8) -> bool {
    &&& (r == cycles)
    &&& (post.wf())
    &&& (post.bus == pre.bus)
    &&& (latches_kept(pre, post))
    &&& (({
            let sp = pre.registers.sp;
            let ext = pre.bus.spec_read(pre.registers.pc) as i8 as u16;
            &&& post.registers == (Registers {
                h: (wadd16(sp, ext) / 256) as u8,
                l: (wadd16(sp, ext) % 256) as u8,
                pc: wadd16(pre.registers.pc, 1),
                f: post.registers.f,
                ..pre.registers
            })
            &&& f_z(post.registers.f) == false
            &&& f_n(post.registers.f) == false
            &&& f_h(post.registers.f) == (sp % 16 + ext % 16 > 15)
            &&& f_c(post.registers.f) == (sp % 256 + ext % 256 > 255)
        }))
}

/// What `ld_rmv` does, as a relation between the processor before
/// and after, with the names and the cycle cost the opcode selects.
pub open spec fn ld_rmv_rel(pre: CPU, post: CPU, register: RegisterName, cycles: u8, r: u8) -> bool {
    &&& (r == cycles)
    &&& (post.wf())
    &&& (post.bus == pre.bus)
    &&& (latches_kept(pre, post))
    &&& (post.registers == (Registers {
            a: pre.bus.spec_read(
                pair(
                    pre.bus.spec_read(wadd16(pre.registers.pc, 1)),
                    pre.bus.spec_read(pre.registers.pc),
                ),
            ),
            pc: wadd16(pre.registers.pc, 2),
            ..pre.registers
        }))
}

/// What `halt` does, as a relation between the processor before
/// and after, with the names and the cycle cost the opcode selects.
pub open spec fn halt_rel(pre: CPU, post: CPU, cycles: u8, r: u8) -> bool {
    &&& (r == cycles)
    &&& (post.registers == pre.registers)
    &&& (post.bus == pre.bus)
    &&& (post.is_halted)
    &&& (post.interrupt_enabled == pre.interrupt_enabled)
}



/// Whether an indirect load moves the address pair afterwards.
pub enum Direction {
    Increment,
    Decrement,
    Stay,
}

/// The low eight bits of a sum of two bytes.
pub open spec fn sum8(a: u8, b: u8) -> u8 {
    ((a + b) % 256) as u8
}

/// The low eight bits of a sum of two bytes and a carry bit.
pub open spec fn sum8c(a: u8, b: u8, c: bool) -> u8 {
    ((a + b + (if c { 1int } else { 0 })) % 256) as u8
}

/// The low eight bits of a difference of two bytes.
pub open spec fn diff8(a: u8, b: u8) -> u8 {
    ((a - b) % 256) as u8
}

/// The low eight bits of a difference of two bytes and a borrow bit.
pub open spec fn diff8b(a: u8, b: u8, c: bool) -> u8 {
    ((a - b - (if c { 1int } else { 0 })) % 256) as u8
}

/// What every instruction helper leaves untouched: the halt latch and
/// the master interrupt enable.
pub open spec fn latches_kept(pre: CPU, post: CPU) -> bool {
    &&& post.is_halted == pre.is_halted
    &&& post.interrupt_enabled == pre.interrupt_enabled
}

/// Executes ADD against the byte a register pair addresses: Z from the
/// result, N clear, H from the low-nibble carry, C from the byte carry.
pub fn add_rm(cpu: &mut CPU, destination: RegisterName, source: RegisterName, cycles: u8) -> (r: u8)
    requires
        old(cpu).wf(),
        destination.spec_is_r8(),
        destination != RegisterName::F,
        source.spec_is_r16(),
    ensures
        add_rm_rel(*old(cpu), *final(cpu), destination, source, cycles, r),

{
    let address = cpu.registers.value_of_u16(&source);
    let v = cpu.bus.bus_read(address);
    let a0 = cpu.registers.value_of(&destination);
    let nv = (((a0 as u16) + (v as u16)) % 256) as u8;
    cpu.registers.update_flag(Flag::Z, nv == 0);
    cpu.registers.update_flag(Flag::N, false);
    cpu.registers.update_flag(Flag::H, (a0 % 16) + (v % 16) > 15);
    cpu.registers.update_flag(Flag::C, (a0 as u16) + (v as u16) > 255);
    cpu.registers.write_in(destination, nv);
    cycles
}

/// Executes ADD against the immediate byte after the opcode: Z from the
/// result, N clear, H from the low-nibble carry, C from the byte carry.
pub fn add_rv(cpu: &mut CPU, destination: RegisterName, cycles: u8) -> (r: u8)
    requires
        old(cpu).wf(),
        destination.spec_is_r8(),
        destination != RegisterName::F,
    ensures
        add_rv_rel(*old(cpu), *final(cpu), destination, cycles, r),

{
    let v = cpu.fetch_byte();
    let a0 = cpu.registers.value_of(&destination);
    let nv = (((a0 as u16) + (v as u16)) % 256) as u8;
    cpu.registers.update_flag(Flag::Z, nv == 0);
    cpu.registers.update_flag(Flag::N, false);
    cpu.registers.update_flag(Flag::H, (a0 % 16) + (v % 16) > 15);
    cpu.registers.update_flag(Flag::C, (a0 as u16) + (v as u16) > 255);
    cpu.registers.write_in(destination, nv);
    cycles
}

/// Executes one of the ADC opcodes: adds another register and the carry bit into the register: Z from the result, N clear, H from the low-nibble carry with the carry in, C from the byte carry.
pub fn adc_rr(cpu: &mut CPU, destination: RegisterName, source: RegisterName, cycles: u8) -> (r: u8)
    requires
        old(cpu).wf(),
        destination.spec_is_r8(),
        destination != RegisterName::F,
            source.spec_is_r8(),
    ensures
        adc_rr_rel(*old(cpu), *final(cpu), destination, source, cycles, r),

{
    let v = cpu.registers.value_of(&source);
    let a0 = cpu.registers.value_of(&destination);
    let carry: u16 = if cpu.registers.check_flag(Flag::C) { 1 } else { 0 };
    let nv = (((a0 as u16) + (v as u16) + carry) % 256) as u8;
    cpu.registers.update_flag(Flag::Z, nv == 0);
    cpu.registers.update_flag(Flag::N, false);
    cpu.registers.update_flag(Flag::H, (a0 % 16) as u16 + (v % 16) as u16 + carry > 15);
    cpu.registers.update_flag(Flag::C, (a0 as u16) + (v as u16) + carry > 255);
    cpu.registers.write_in(destination, nv);
    cycles
}

/// Executes one of the ADC opcodes: adds the byte a register pair addresses and the carry bit into the register: Z from the result, N clear, H from the low-nibble carry with the carry in, C from the byte carry.
pub fn adc_rm(cpu: &mut CPU, destination: RegisterName, source: RegisterName, cycles: u8) -> (r: u8)
    requires
        old(cpu).wf(),
        destination.spec_is_r8(),
        destination != RegisterName::F,
            source.spec_is_r16(),
    ensures
        adc_rm_rel(*old(cpu), *final(cpu), destination, source, cycles, r),

{
    let address = cpu.registers.value_of_u16(&source);
    let v = cpu.bus.bus_read(address);
    let a0 = cpu.registers.value_of(&destination);
    let carry: u16 = if cpu.registers.check_flag(Flag::C) { 1 } else { 0 };
    let nv = (((a0 as u16) + (v as u16) + carry) % 256) as u8;
    cpu.registers.update_flag(Flag::Z, nv == 0);
    cpu.registers.update_flag(Flag::N, false);
    cpu.registers.update_flag(Flag::H, (a0 % 16) as u16 + (v % 16) as u16 + carry > 15);
    cpu.registers.update_flag(Flag::C, (a0 as u16) + (v as u16) + carry > 255);
    cpu.registers.write_in(destination, nv);
    cycles
}

/// Executes one of the ADC opcodes: adds the immediate byte after the opcode and the carry bit into the register: Z from the result, N clear, H from the low-nibble carry with the carry in, C from the byte carry.
pub fn adc_rv(cpu: &mut CPU, destination: RegisterName, cycles: u8) -> (r: u8)
    requires
        old(cpu).wf(),
        destination.spec_is_r8(),
        destination != RegisterName::F,
    ensures
        adc_rv_rel(*old(cpu), *final(cpu), destination, cycles, r),

{
    let v = cpu.fetch_byte();
    let a0 = cpu.registers.value_of(&destination);
    let carry: u16 = if cpu.registers.check_flag(Flag::C) { 1 } else { 0 };
    let nv = (((a0 as u16) + (v as u16) + carry) % 256) as u8;
    cpu.registers.update_flag(Flag::Z, nv == 0);
    cpu.registers.update_flag(Flag::N, false);
    cpu.registers.update_flag(Flag::H, (a0 % 16) as u16 + (v % 16) as u16 + carry > 15);
    cpu.registers.update_flag(Flag::C, (a0 as u16) + (v as u16) + carry > 255);
    cpu.registers.write_in(destination, nv);
    cycles
}

/// Executes one of the SUB opcodes: subtracts another register from the register: Z from the result, N set, H from the low-nibble borrow, C from the byte borrow.
#[verifier::rlimit(100)]
#[verifier::spinoff_prover]
pub fn sub_rr(cpu: &mut CPU, destination: RegisterName, source: RegisterName, cycles: u8) -> (r: u8)
    requires
        old(cpu).wf(),
        destination.spec_is_r8(),
        destination != RegisterName::F,
            source.spec_is_r8(),
    ensures
        sub_rr_rel(*old(cpu), *final(cpu), destination, source, cycles, r),

{
    let v = cpu.registers.value_of(&source);
    let a0 = cpu.registers.value_of(&destination);
    let nv = (((a0 as u16) + 256 - (v as u16)) % 256) as u8;
    cpu.registers.update_flag(Flag::Z, nv == 0);
    cpu.registers.update_flag(Flag::N, true);
    cpu.registers.update_flag(Flag::H, (a0 % 16) < (v % 16));
    cpu.registers.update_flag(Flag::C, a0 < v);
    cpu.registers.write_in(destination, nv);
    cycles
}

/// Executes one of the SUB opcodes: subtracts the byte a register pair addresses from the register: Z from the result, N set, H from the low-nibble borrow, C from the byte borrow.
#[verifier::rlimit(100)]
#[verifier::spinoff_prover]
pub fn sub_rm(cpu: &mut CPU, destination: RegisterName, source: RegisterName, cycles: u8) -> (r: u8)
    requires
        old(cpu).wf(),
        destination.spec_is_r8(),
        destination != RegisterName::F,
            source.spec_is_r16(),
    ensures
        sub_rm_rel(*old(cpu), *final(cpu), destination, source, cycles, r),

{
    let address = cpu.registers.value_of_u16(&source);
    let v = cpu.bus.bus_read(address);
    let a0 = cpu.registers.value_of(&destination);
    let nv = (((a0 as u16) + 256 - (v as u16)) % 256) as u8;
    cpu.registers.update_flag(Flag::Z, nv == 0);
    cpu.registers.update_flag(Flag::N, true);
    cpu.registers.update_flag(Flag::H, (a0 % 16) < (v % 16));
    cpu.registers.update_flag(Flag::C, a0 < v);
    cpu.registers.write_in(destination, nv);
    cycles
}

/// Executes one of the SUB opcodes: subtracts the immediate byte after the opcode from the register: Z from the result, N set, H from the low-nibble borrow, C from the byte borrow.
#[verifier::rlimit(100)]
#[verifier::spinoff_prover]
pub fn sub_rv(cpu: &mut CPU, destination: RegisterName, cycles: u8) -> (r: u8)
    requires
        old(cpu).wf(),
        destination.spec_is_r8(),
        destination != RegisterName::F,
    ensures
        sub_rv_rel(*old(cpu), *final(cpu), destination, cycles, r),

{
    let v = cpu.fetch_byte();
    let a0 = cpu.registers.value_of(&destination);
    let nv = (((a0 as u16) + 256 - (v as u16)) % 256) as u8;
    cpu.registers.update_flag(Flag::Z, nv == 0);
    cpu.registers.update_flag(Flag::N, true);
    cpu.registers.update_flag(Flag::H, (a0 % 16) < (v % 16));
    cpu.registers.update_flag(Flag::C, a0 < v);
    cpu.registers.write_in(destination, nv);
    cycles
}

/// Executes one of the SBC opcodes: subtracts another register and the carry bit from the register: Z from the result, N set, H from the low-nibble borrow with the borrow in, C from the byte borrow.
#[verifier::rlimit(100)]
#[verifier::spinoff_prover]
pub fn sbc_rr(cpu: &mut CPU, destination: RegisterName, source: RegisterName, cycles: u8) -> (r: u8)
    requires
        old(cpu).wf(),
        destination.spec_is_r8(),
        destination != RegisterName::F,
            source.spec_is_r8(),
    ensures
        sbc_rr_rel(*old(cpu), *final(cpu), destination, source, cycles, r),

{
    let v = cpu.registers.value_of(&source);
    let a0 = cpu.registers.value_of(&destination);
    let cin = cpu.registers.check_flag(Flag::C);
    let (nv, hb, cb) = sbc_values(a0, v, cin);
    cpu.registers.update_flag(Flag::Z, nv == 0);
    cpu.registers.update_flag(Flag::N, true);
    cpu.registers.update_flag(Flag::H, hb);
    cpu.registers.update_flag(Flag::C, cb);
    cpu.registers.write_in(destination, nv);
    cycles
}

/// Executes one of the SBC opcodes: subtracts the byte a register pair addresses and the carry bit from the register: Z from the result, N set, H from the low-nibble borrow with the borrow in, C from the byte borrow.
#[verifier::rlimit(100)]
#[verifier::spinoff_prover]
pub fn sbc_rm(cpu: &mut CPU, destination: RegisterName, source: RegisterName, cycles: u8) -> (r: u8)
    requires
        old(cpu).wf(),
        destination.spec_is_r8(),
        destination != RegisterName::F,
            source.spec_is_r16(),
    ensures
        sbc_rm_rel(*old(cpu), *final(cpu), destination, source, cycles, r),

{
    let address = cpu.registers.value_of_u16(&source);
    let v = cpu.bus.bus_read(address);
    let a0 = cpu.registers.value_of(&destination);
    let cin = cpu.registers.check_flag(Flag::C);
    let (nv, hb, cb) = sbc_values(a0, v, cin);
    cpu.registers.update_flag(Flag::Z, nv == 0);
    cpu.registers.update_flag(Flag::N, true);
    cpu.registers.update_flag(Flag::H, hb);
    cpu.registers.update_flag(Flag::C, cb);
    cpu.registers.write_in(destination, nv);
    cycles
}

/// Executes one of the SBC opcodes: subtracts the immediate byte after the opcode and the carry bit from the register: Z from the result, N set, H from the low-nibble borrow with the borrow in, C from the byte borrow.
#[verifier::rlimit(100)]
#[verifier::spinoff_prover]
pub fn sbc_rv(cpu: &mut CPU, destination: RegisterName, cycles: u8) -> (r: u8)
    requires
        old(cpu).wf(),
        destination.spec_is_r8(),
        destination != RegisterName::F,
    ensures
        sbc_rv_rel(*old(cpu), *final(cpu), destination, cycles, r),

{
    let v = cpu.fetch_byte();
    let a0 = cpu.registers.value_of(&destination);
    let cin = cpu.registers.check_flag(Flag::C);
    let (nv, hb, cb) = sbc_values(a0, v, cin);
    cpu.registers.update_flag(Flag::Z, nv == 0);
    cpu.registers.update_flag(Flag::N, true);
    cpu.registers.update_flag(Flag::H, hb);
    cpu.registers.update_flag(Flag::C, cb);
    cpu.registers.write_in(destination, nv);
    cycles
}

/// The result, half borrow and full borrow of a subtract with carry.
fn sbc_values(a0: u8, v: u8, cin: bool) -> (out: (u8, bool, bool))
    ensures
        out.0 == diff8b(a0, v, cin),
        out.1 == (a0 % 16 - v % 16 - (if cin { 1int } else { 0 }) < 0),
        out.2 == (a0 - v - (if cin { 1int } else { 0 }) < 0),
{
    let borrow: u16 = if cin { 1 } else { 0 };
    let nv = (((a0 as u16) + 512 - (v as u16) - borrow) % 256) as u8;
    let hb = ((a0 % 16) as u16) < ((v % 16) as u16) + borrow;
    let cb = (a0 as u16) < (v as u16) + borrow;
    (nv, hb, cb)
}

/// Executes one of the AND opcodes: masks the register with another register: Z from the result, N clear, H set, C clear.
pub fn and_rr(cpu: &mut CPU, destination: RegisterName, source: RegisterName, cycles: u8) -> (r: u8)
    requires
        old(cpu).wf(),
        destination.spec_is_r8(),
        destination != RegisterName::F,
            source.spec_is_r8(),
    ensures
        and_rr_rel(*old(cpu), *final(cpu), destination, source, cycles, r),

{
    let v = cpu.registers.value_of(&source);
    let a0 = cpu.registers.value_of(&destination);
    let nv = a0 & v;
    cpu.registers.update_flag(Flag::Z, nv == 0);
    cpu.registers.update_flag(Flag::N, false);
    cpu.registers.update_flag(Flag::H, true);
    cpu.registers.update_flag(Flag::C, false);
    cpu.registers.write_in(destination, nv);
    cycles
}

/// Executes one of the AND opcodes: masks the register with the byte a register pair addresses: Z from the result, N clear, H set, C clear.
pub fn and_rm(cpu: &mut CPU, destination: RegisterName, source: RegisterName, cycles: u8) -> (r: u8)
    requires
        old(cpu).wf(),
        destination.spec_is_r8(),
        destination != RegisterName::F,
            source.spec_is_r16(),
    ensures
        and_rm_rel(*old(cpu), *final(cpu), destination, source, cycles, r),

{
    let address = cpu.registers.value_of_u16(&source);
    let v = cpu.bus.bus_read(address);
    let a0 = cpu.registers.value_of(&destination);
    let nv = a0 & v;
    cpu.registers.update_flag(Flag::Z, nv == 0);
    cpu.registers.update_flag(Flag::N, false);
    cpu.registers.update_flag(Flag::H, true);
    cpu.registers.update_flag(Flag::C, false);
    cpu.registers.write_in(destination, nv);
    cycles
}

/// Executes one of the AND opcodes: masks the register with the immediate byte after the opcode: Z from the result, N clear, H set, C clear.
pub fn and_rv(cpu: &mut CPU, destination: RegisterName, cycles: u8) -> (r: u8)
    requires
        old(cpu).wf(),
        destination.spec_is_r8(),
        destination != RegisterName::F,
    ensures
        and_rv_rel(*old(cpu), *final(cpu), destination, cycles, r),

{
    let v = cpu.fetch_byte();
    let a0 = cpu.registers.value_of(&destination);
    let nv = a0 & v;
    cpu.registers.update_flag(Flag::Z, nv == 0);
    cpu.registers.update_flag(Flag::N, false);
    cpu.registers.update_flag(Flag::H, true);
    cpu.registers.update_flag(Flag::C, false);
    cpu.registers.write_in(destination, nv);
    cycles
}

/// Executes one of the XOR opcodes: exclusive-ors the register with another register: Z from the result, the other flags clear.
pub fn xor_rr(cpu: &mut CPU, destination: RegisterName, source: RegisterName, cycles: u8) -> (r: u8)
    requires
        old(cpu).wf(),
        destination.spec_is_r8(),
        destination != RegisterName::F,
            source.spec_is_r8(),
    ensures
        xor_rr_rel(*old(cpu), *final(cpu), destination, source, cycles, r),

{
    let v = cpu.registers.value_of(&source);
    let a0 = cpu.registers.value_of(&destination);
    let nv = a0 ^ v;
    cpu.registers.update_flag(Flag::Z, nv == 0);
    cpu.registers.update_flag(Flag::N, false);
    cpu.registers.update_flag(Flag::H, false);
    cpu.registers.update_flag(Flag::C, false);
    cpu.registers.write_in(destination, nv);
    cycles
}

/// Executes one of the XOR opcodes: exclusive-ors the register with the byte a register pair addresses: Z from the result, the other flags clear.
pub fn xor_rm(cpu: &mut CPU, destination: RegisterName, source: RegisterName, cycles: u8) -> (r: u8)
    requires
        old(cpu).wf(),
        destination.spec_is_r8(),
        destination != RegisterName::F,
            source.spec_is_r16(),
    ensures
        xor_rm_rel(*old(cpu), *final(cpu), destination, source, cycles, r),

{
    let address = cpu.registers.value_of_u16(&source);
    let v = cpu.bus.bus_read(address);
    let a0 = cpu.registers.value_of(&destination);
    let nv = a0 ^ v;
    cpu.registers.update_flag(Flag::Z, nv == 0);
    cpu.registers.update_flag(Flag::N, false);
    cpu.registers.update_flag(Flag::H, false);
    cpu.registers.update_flag(Flag::C, false);
    cpu.registers.write_in(destination, nv);
    cycles
}

/// Executes one of the XOR opcodes: exclusive-ors the register with the immediate byte after the opcode: Z from the result, the other flags clear.
pub fn xor_rv(cpu: &mut CPU, destination: RegisterName, cycles: u8) -> (r: u8)
    requires
        old(cpu).wf(),
        destination.spec_is_r8(),
        destination != RegisterName::F,
    ensures
        xor_rv_rel(*old(cpu), *final(cpu), destination, cycles, r),

{
    let v = cpu.fetch_byte();
    let a0 = cpu.registers.value_of(&destination);
    let nv = a0 ^ v;
    cpu.registers.update_flag(Flag::Z, nv == 0);
    cpu.registers.update_flag(Flag::N, false);
    cpu.registers.update_flag(Flag::H, false);
    cpu.registers.update_flag(Flag::C, false);
    cpu.registers.write_in(destination, nv);
    cycles
}

/// Executes one of the OR opcodes: ors the register with another register: Z from the result, the other flags clear.
pub fn or_rr(cpu: &mut CPU, destination: RegisterName, source: RegisterName, cycles: u8) -> (r: u8)
    requires
        old(cpu).wf(),
        destination.spec_is_r8(),
        destination != RegisterName::F,
            source.spec_is_r8(),
    ensures
        or_rr_rel(*old(cpu), *final(cpu), destination, source, cycles, r),

{
    let v = cpu.registers.value_of(&source);
    let a0 = cpu.registers.value_of(&destination);
    let nv = a0 | v;
    cpu.registers.update_flag(Flag::Z, nv == 0);
    cpu.registers.update_flag(Flag::N, false);
    cpu.registers.update_flag(Flag::H, false);
    cpu.registers.update_flag(Flag::C, false);
    cpu.registers.write_in(destination, nv);
    cycles
}

/// Executes one of the OR opcodes: ors the register with the byte a register pair addresses: Z from the result, the other flags clear.
pub fn or_rm(cpu: &mut CPU, destination: RegisterName, source: RegisterName, cycles: u8) -> (r: u8)
    requires
        old(cpu).wf(),
        destination.spec_is_r8(),
        destination != RegisterName::F,
            source.spec_is_r16(),
    ensures
        or_rm_rel(*old(cpu), *final(cpu), destination, source, cycles, r),

{
    let address = cpu.registers.value_of_u16(&source);
    let v = cpu.bus.bus_read(address);
    let a0 = cpu.registers.value_of(&destination);
    let nv = a0 | v;
    cpu.registers.update_flag(Flag::Z, nv == 0);
    cpu.registers.update_flag(Flag::N, false);
    cpu.registers.update_flag(Flag::H, false);
    cpu.registers.update_flag(Flag::C, false);
    cpu.registers.write_in(destination, nv);
    cycles
}

/// Executes one of the OR opcodes: ors the register with the immediate byte after the opcode: Z from the result, the other flags clear.
pub fn or_rv(cpu: &mut CPU, destination: RegisterName, cycles: u8) -> (r: u8)
    requires
        old(cpu).wf(),
        destination.spec_is_r8(),
        destination != RegisterName::F,
    ensures
        or_rv_rel(*old(cpu), *final(cpu), destination, cycles, r),

{
    let v = cpu.fetch_byte();
    let a0 = cpu.registers.value_of(&destination);
    let nv = a0 | v;
    cpu.registers.update_flag(Flag::Z, nv == 0);
    cpu.registers.update_flag(Flag::N, false);
    cpu.registers.update_flag(Flag::H, false);
    cpu.registers.update_flag(Flag::C, false);
    cpu.registers.write_in(destination, nv);
    cycles
}


/// Executes the 16-bit ADD HL,rr family when the source is a 16-bit
/// register, and the 8-bit ADD otherwise: the 16-bit form leaves Z
/// alone, clears N, and draws H from bit 11 and C from bit 15.
pub fn add_rr(cpu: &mut CPU, destination: RegisterName, source: RegisterName, cycles: u8) -> (r: u8)
    requires
        old(cpu).wf(),
        source.spec_is_u16_registers() ==> destination.spec_is_u16_registers(),
        !source.spec_is_u16_registers() ==> source.spec_is_r8() && destination.spec_is_r8()
            && destination != RegisterName::F,
    ensures
        add_rr_rel(*old(cpu), *final(cpu), destination, source, cycles, r),

{
    if source.is_u16_registers() {
        let v = cpu.registers.value_of_u16(&source);
        let d0 = cpu.registers.value_of_u16(&destination);
        let nv = d0.wrapping_add(v);
        let half_carry = (d0 % 4096) as u32 + (v % 4096) as u32 > 4095;
        let did_overflow = (d0 as u32) + (v as u32) > 65535;
        cpu.registers.update_flag(Flag::N, false);
        cpu.registers.update_flag(Flag::H, half_carry);
        cpu.registers.update_flag(Flag::C, did_overflow);
        cpu.registers.write_in_u16(destination, nv);
    } else {
        let v = cpu.registers.value_of(&source);
        let a0 = cpu.registers.value_of(&destination);
        let nv = (((a0 as u16) + (v as u16)) % 256) as u8;
        cpu.registers.update_flag(Flag::Z, nv == 0);
        cpu.registers.update_flag(Flag::N, false);
        cpu.registers.update_flag(Flag::H, (a0 % 16) + (v % 16) > 15);
        cpu.registers.update_flag(Flag::C, (a0 as u16) + (v as u16) > 255);
        cpu.registers.write_in(destination, nv);
    }
    cycles
}

/// Executes one of the CP opcodes against another register: the flags
/// of a subtraction, with the register kept.
pub fn cp_rr(cpu: &mut CPU, destination: RegisterName, source: RegisterName, cycles: u8) -> (r: u8)
    requires
        old(cpu).wf(),
        destination.spec_is_r8(),
        source.spec_is_r8(),
    ensures
        cp_rr_rel(*old(cpu), *final(cpu), destination, source, cycles, r),

{
    let v = cpu.registers.value_of(&source);
    let a0 = cpu.registers.value_of(&destination);
    cpu.registers.update_flag(Flag::Z, a0 == v);
    cpu.registers.update_flag(Flag::N, true);
    cpu.registers.update_flag(Flag::H, (a0 % 16) < (v % 16));
    cpu.registers.update_flag(Flag::C, a0 < v);
    cycles
}

/// Executes CP against the byte a register pair addresses.
pub fn cp_rm(cpu: &mut CPU, destination: RegisterName, source: RegisterName, cycles: u8) -> (r: u8)
    requires
        old(cpu).wf(),
        destination.spec_is_r8(),
        source.spec_is_r16(),
    ensures
        cp_rm_rel(*old(cpu), *final(cpu), destination, source, cycles, r),

{
    let address = cpu.registers.value_of_u16(&source);
    let v = cpu.bus.bus_read(address);
    let a0 = cpu.registers.value_of(&destination);
    cpu.registers.update_flag(Flag::Z, a0 == v);
    cpu.registers.update_flag(Flag::N, true);
    cpu.registers.update_flag(Flag::H, (a0 % 16) < (v % 16));
    cpu.registers.update_flag(Flag::C, a0 < v);
    cycles
}

/// Executes CP against the immediate byte after the opcode.
pub fn cp_rv(cpu: &mut CPU, register: RegisterName, cycles: u8) -> (r: u8)
    requires
        old(cpu).wf(),
        register.spec_is_r8(),
    ensures
        cp_rv_rel(*old(cpu), *final(cpu), register, cycles, r),

{
    let v = cpu.fetch_byte();
    let a0 = cpu.registers.value_of(&register);
    cpu.registers.update_flag(Flag::Z, a0 == v);
    cpu.registers.update_flag(Flag::N, true);
    cpu.registers.update_flag(Flag::H, (a0 % 16) < (v % 16));
    cpu.registers.update_flag(Flag::C, a0 < v);
    cycles
}

/// Copies one register into another; both 8-bit names and 16-bit pair
/// names are accepted, so LD SP,HL routes through here too.
pub fn ld_rr(cpu: &mut CPU, destination: RegisterName, source: RegisterName, cycles: u8) -> (r: u8)
    requires
        old(cpu).wf(),
        destination.spec_is_u16_registers() && source.spec_is_u16_registers()
            || destination.spec_is_r8() && source.spec_is_r8(),
    ensures
        ld_rr_rel(*old(cpu), *final(cpu), destination, source, cycles, r),

{
    if destination.is_u16_registers() && source.is_u16_registers() {
        let value = cpu.registers.value_of_u16(&source);
        cpu.registers.write_in_u16(destination, value);
        return cycles;
    }
    let value = cpu.registers.value_of(&source);
    cpu.registers.write_in(destination, value);
    cycles
}

/// Stores a register at the address a pair holds, optionally moving the
/// pair up or down afterwards.
pub fn ld_mr(
    cpu: &mut CPU,
    destination: RegisterName,
    source: RegisterName,
    direction: Direction,
    cycles: u8,
) -> (r: u8)
    requires
        old(cpu).wf(),
        destination.spec_is_r16(),
        source.spec_is_r8(),
    ensures
        ld_mr_rel(*old(cpu), *final(cpu), destination, source, direction, cycles, r),

{
    let address = cpu.registers.value_of_u16(&destination);
    let value = cpu.registers.value_of(&source);
    cpu.bus.bus_write(address, value);
    match direction {
        Direction::Increment => {
            let new_val = address.wrapping_add(1);
            cpu.registers.write_in_u16(destination, new_val);
        },
        Direction::Decrement => {
            let new_val = address.wrapping_sub(1);
            cpu.registers.write_in_u16(destination, new_val);
        },
        Direction::Stay => (),
    }
    cycles
}

/// Loads a register from the address a pair holds, optionally moving
/// the pair up or down afterwards.
pub fn ld_rm(
    cpu: &mut CPU,
    destination: RegisterName,
    source: RegisterName,
    direction: Direction,
    cycles: u8,
) -> (r: u8)
    requires
        old(cpu).wf(),
        destination.spec_is_r8(),
        source.spec_is_r16(),
    ensures
        ld_rm_rel(*old(cpu), *final(cpu), destination, source, direction, cycles, r),

{
    let address = cpu.registers.value_of_u16(&source);
    let value_from_memory = cpu.bus.bus_read(address);
    cpu.registers.write_in(destination, value_from_memory);
    match direction {
        Direction::Increment => {
            let new_val = address.wrapping_add(1);
            cpu.registers.write_in_u16(source, new_val);
        },
        Direction::Decrement => {
            let new_val = address.wrapping_sub(1);
            cpu.registers.write_in_u16(source, new_val);
        },
        Direction::Stay => (),
    }
    cycles
}

/// Loads A from the byte HL addresses and moves HL up by one.
pub fn ldi_a_mhl(cpu: &mut CPU, cycles: u8) -> (r: u8)
    requires
        old(cpu).wf(),
    ensures
        ldi_a_mhl_rel(*old(cpu), *final(cpu), cycles, r),

{
    let hl = cpu.registers.get_hl();
    let a = cpu.bus.bus_read(hl);
    cpu.registers.a = a;
    cpu.registers.set_hl(hl.wrapping_add(1));
    cycles
}

/// Loads a 16-bit register from the immediate word after the opcode.
pub fn ld_ru16(cpu: &mut CPU, destination: RegisterName, cycles: u8) -> (r: u8)
    requires
        old(cpu).wf(),
        destination.spec_is_r16(),
    ensures
        ld_ru16_rel(*old(cpu), *final(cpu), destination, cycles, r),

{
    let value = cpu.fetch_word();
    cpu.registers.write_in_u16(destination, value);
    cycles
}

/// Loads an 8-bit register from the immediate byte after the opcode.
pub fn ld_ru8(cpu: &mut CPU, destination: RegisterName, cycles: u8) -> (r: u8)
    requires
        old(cpu).wf(),
        destination.spec_is_r8(),
    ensures
        ld_ru8_rel(*old(cpu), *final(cpu), destination, cycles, r),

{
    let value = cpu.fetch_byte();
    cpu.registers.write_in(destination, value);
    cycles
}

/// Stores the immediate byte after the opcode at the address a pair
/// holds.
pub fn ld_m_u8(cpu: &mut CPU, register: RegisterName, cycles: u8) -> (r: u8)
    requires
        old(cpu).wf(),
        register.spec_is_r16(),
        register != RegisterName::PC,
    ensures
        ld_m_u8_rel(*old(cpu), *final(cpu), register, cycles, r),

{
    let value = cpu.fetch_byte();
    let address = cpu.registers.value_of_u16(&register);
    cpu.bus.bus_write(address, value);
    cycles
}

/// Returns when the tested flag matches the wanted state, popping the
/// return address; the branch cost is added when taken.
pub fn ret_if(cpu: &mut CPU, flag: Flag, condition: bool, cycles: u8) -> (r: u8)
    requires
        old(cpu).wf(),
        cycles <= 200,
    ensures
        ret_if_rel(*old(cpu), *final(cpu), flag, condition, cycles, r),

{
    if cpu.registers.check_flag(flag) == condition {
        let target = cpu.pop_stack_word();
        cpu.registers.pc = target;
        cycles + 12
    } else {
        cycles
    }
}

/// Returns unconditionally, popping the return address.
pub fn ret(cpu: &mut CPU, cycles: u8) -> (r: u8)
    requires
        old(cpu).wf(),
    ensures
        ret_rel(*old(cpu), *final(cpu), cycles, r),

{
    let target = cpu.pop_stack_word();
    cpu.registers.pc = target;
    cycles
}

/// Jumps by the signed displacement after the opcode when the tested
/// flag matches the wanted state; the branch cost is added when taken.
pub fn jr_if(cpu: &mut CPU, flag: Flag, expected_state: bool, cycles: u8) -> (r: u8)
    requires
        old(cpu).wf(),
        cycles <= 200,
    ensures
        jr_if_rel(*old(cpu), *final(cpu), flag, expected_state, cycles, r),

{
    let relative_jump: i8 = cpu.bus.bus_read(cpu.registers.pc) as i8;
    cpu.registers.pc = cpu.registers.pc.wrapping_add(1);
    if cpu.registers.check_flag(flag) == expected_state {
        cpu.registers.pc = cpu.registers.pc.wrapping_add(relative_jump as u16);
        cycles + 4
    } else {
        cycles
    }
}

/// Jumps by the signed displacement after the opcode.
pub fn jr(cpu: &mut CPU, cycles: u8) -> (r: u8)
    requires
        old(cpu).wf(),
    ensures
        jr_rel(*old(cpu), *final(cpu), cycles, r),

{
    let relative_jump: i8 = cpu.bus.bus_read(cpu.registers.pc) as i8;
    cpu.registers.pc = cpu.registers.pc.wrapping_add(1);
    cpu.registers.pc = cpu.registers.pc.wrapping_add(relative_jump as u16);
    cycles
}

/// Rotates A left circularly: C takes the old top bit, Z, N and H clear.
pub fn rlca(cpu: &mut CPU, cycles: u8) -> (r: u8)
    requires
        old(cpu).wf(),
    ensures
        rlca_rel(*old(cpu), *final(cpu), cycles, r),

{
    let a = cpu.registers.a;
    let msb_set = a >= 128;
    cpu.registers.a = (((a as u16) * 2) % 256) as u8 + (if msb_set { 1u8 } else { 0 });
    cpu.registers.update_flag(Flag::C, msb_set);
    cpu.registers.update_flag(Flag::Z, false);
    cpu.registers.update_flag(Flag::N, false);
    cpu.registers.update_flag(Flag::H, false);
    cycles
}

/// Rotates A left through the carry: C takes the old top bit, the old
/// carry enters at the bottom; Z, N and H clear.
pub fn rla(cpu: &mut CPU, cycles: u8) -> (r: u8)
    requires
        old(cpu).wf(),
    ensures
        rla_rel(*old(cpu), *final(cpu), cycles, r),

{
    let a = cpu.registers.a;
    let carry_set = cpu.registers.check_flag(Flag::C);
    cpu.registers.update_flag(Flag::C, a >= 128);
    cpu.registers.a = (((a as u16) * 2) % 256) as u8 + (if carry_set { 1u8 } else { 0 });
    cpu.registers.update_flag(Flag::Z, false);
    cpu.registers.update_flag(Flag::N, false);
    cpu.registers.update_flag(Flag::H, false);
    cycles
}

/// Rotates A right through the carry: C takes the old bottom bit, the
/// old carry enters at the top; Z, N and H clear.
pub fn rra(cpu: &mut CPU, cycles: u8) -> (r: u8)
    requires
        old(cpu).wf(),
    ensures
        rra_rel(*old(cpu), *final(cpu), cycles, r),

{
    let a = cpu.registers.a;
    let carry_set = cpu.registers.check_flag(Flag::C);
    cpu.registers.update_flag(Flag::C, a % 2 == 1);
    cpu.registers.a = a / 2 + (if carry_set { 128u8 } else { 0 });
    cpu.registers.update_flag(Flag::Z, false);
    cpu.registers.update_flag(Flag::N, false);
    cpu.registers.update_flag(Flag::H, false);
    cycles
}

/// Rotates A right circularly: C takes the old bottom bit; Z, N and H
/// clear.
pub fn rrca(cpu: &mut CPU, cycles: u8) -> (r: u8)
    requires
        old(cpu).wf(),
    ensures
        rrca_rel(*old(cpu), *final(cpu), cycles, r),

{
    let a = cpu.registers.a;
    let lsb_set = a % 2 == 1;
    cpu.registers.a = a / 2 + (if lsb_set { 128u8 } else { 0 });
    cpu.registers.update_flag(Flag::C, lsb_set);
    cpu.registers.update_flag(Flag::Z, false);
    cpu.registers.update_flag(Flag::N, false);
    cpu.registers.update_flag(Flag::H, false);
    cycles
}

/// The accumulator after the decimal adjustment and whether the
/// adjustment carries: after an addition it adds 0x60 and 0x06 for the
/// out-of-range digits, after a subtraction it undoes the carried
/// corrections.
pub open spec fn spec_daa(a: u8, n: bool, h: bool, c: bool) -> (u8, bool) {
    if !n {
        let a1 = if c || a > 0x99 {
            sum8(a, 0x60)
        } else {
            a
        };
        let c1 = c || a > 0x99;
        let a2 = if h || a1 % 16 > 9 {
            sum8(a1, 0x06)
        } else {
            a1
        };
        (a2, c1)
    } else {
        let a1 = if c {
            diff8(a, 0x60)
        } else {
            a
        };
        let a2 = if h {
            diff8(a1, 0x06)
        } else {
            a1
        };
        (a2, c)
    }
}

/// Decimal-adjusts A after a BCD addition or subtraction: Z from the
/// result, H cleared, C as the adjustment leaves it, N kept.
#[verifier::rlimit(100)]
#[verifier::spinoff_prover]
pub fn daa(cpu: &mut CPU, cycles: u8) -> (r: u8)
    requires
        old(cpu).wf(),
    ensures
        daa_rel(*old(cpu), *final(cpu), cycles, r),

{
    let n_flag = cpu.registers.check_flag(Flag::N);
    let c_flag = cpu.registers.check_flag(Flag::C);
    let h_flag = cpu.registers.check_flag(Flag::H);
    let a0 = cpu.registers.a;
    let (a, c_out) = daa_values(a0, n_flag, h_flag, c_flag);
    cpu.registers.update_flag(Flag::Z, a == 0);
    cpu.registers.update_flag(Flag::C, c_out);
    cpu.registers.update_flag(Flag::H, false);
    cpu.registers.a = a;
    cycles
}

/// The adjusted accumulator and carry of the decimal adjustment.
fn daa_values(a0: u8, n: bool, h: bool, c: bool) -> (out: (u8, bool))
    ensures
        out == spec_daa(a0, n, h, c),
{
    let mut a = a0;
    let mut c_out = c;
    if !n {
        if c || a > 0x99 {
            a = a.wrapping_add(0x60);
            c_out = true;
        }
        if h || (a % 16) > 0x09 {
            a = a.wrapping_add(0x06);
        }
    } else {
        if c {
            a = a.wrapping_sub(0x60);
        }
        if h {
            a = a.wrapping_sub(0x06);
        }
    }
    (a, c_out)
}

/// Complements A: N and H set, Z and C kept.
pub fn cpl(cpu: &mut CPU, cycles: u8) -> (r: u8)
    requires
        old(cpu).wf(),
    ensures
        cpl_rel(*old(cpu), *final(cpu), cycles, r),

{
    cpu.registers.a = 255 - cpu.registers.a;
    cpu.registers.update_flag(Flag::N, true);
    cpu.registers.update_flag(Flag::H, true);
    cycles
}

/// Sets the carry: N and H clear, Z kept.
pub fn scf(cpu: &mut CPU, cycles: u8) -> (r: u8)
    requires
        old(cpu).wf(),
    ensures
        scf_rel(*old(cpu), *final(cpu), cycles, r),

{
    cpu.registers.update_flag(Flag::C, true);
    cpu.registers.update_flag(Flag::N, false);
    cpu.registers.update_flag(Flag::H, false);
    cycles
}

/// Flips the carry: N and H clear, Z kept.
pub fn ccf(cpu: &mut CPU, cycles: u8) -> (r: u8)
    requires
        old(cpu).wf(),
    ensures
        ccf_rel(*old(cpu), *final(cpu), cycles, r),

{
    let carry = cpu.registers.check_flag(Flag::C);
    cpu.registers.update_flag(Flag::C, !carry);
    cpu.registers.update_flag(Flag::N, false);
    cpu.registers.update_flag(Flag::H, false);
    cycles
}

/// Increments a register: the 16-bit form touches no flags; the 8-bit
/// form draws Z and H from the result and leaves C.
pub fn inc_r(cpu: &mut CPU, register: RegisterName, cycles: u8) -> (r: u8)
    requires
        old(cpu).wf(),
        register.spec_is_u16_registers() || register.spec_is_r8() && register != RegisterName::F,
    ensures
        inc_r_rel(*old(cpu), *final(cpu), register, cycles, r),

{
    if register.is_u16_registers() {
        let value = cpu.registers.value_of_u16(&register);
        let new_value = value.wrapping_add(1);
        cpu.registers.write_in_u16(register, new_value);
    } else {
        let value = cpu.registers.value_of(&register);
        let new_value = value.wrapping_add(1);
        cpu.registers.update_flag(Flag::Z, new_value == 0);
        cpu.registers.update_flag(Flag::H, value % 16 == 15);
        cpu.registers.update_flag(Flag::N, false);
        cpu.registers.write_in(register, new_value);
    }
    cycles
}

/// Increments the byte a pair addresses: Z and H from the result, N
/// clear, C kept.
pub fn inc_m(cpu: &mut CPU, register: RegisterName, cycles: u8) -> (r: u8)
    requires
        old(cpu).wf(),
        register.spec_is_r16(),
    ensures
        inc_m_rel(*old(cpu), *final(cpu), register, cycles, r),

{
    let address = cpu.registers.value_of_u16(&register);
    let value_from_memory = cpu.bus.bus_read(address);
    let incremented_value = value_from_memory.wrapping_add(1);
    cpu.registers.update_flag(Flag::Z, incremented_value == 0);
    cpu.registers.update_flag(Flag::H, value_from_memory % 16 == 15);
    cpu.registers.update_flag(Flag::N, false);
    cpu.bus.bus_write(address, incremented_value);
    cycles
}

/// Decrements a register: the 16-bit form touches no flags; the 8-bit
/// form draws Z and H from the result and leaves C.
pub fn dec_r(cpu: &mut CPU, register: RegisterName, cycles: u8) -> (r: u8)
    requires
        old(cpu).wf(),
        register.spec_is_u16_registers() || register.spec_is_r8() && register != RegisterName::F,
    ensures
        dec_r_rel(*old(cpu), *final(cpu), register, cycles, r),

{
    if register.is_u16_registers() {
        let value = cpu.registers.value_of_u16(&register);
        let new_value = value.wrapping_sub(1);
        cpu.registers.write_in_u16(register, new_value);
    } else {
        let value = cpu.registers.value_of(&register);
        let new_value = value.wrapping_sub(1);
        cpu.registers.write_in(register, new_value);
        cpu.registers.update_flag(Flag::Z, new_value == 0);
        cpu.registers.update_flag(Flag::N, true);
        cpu.registers.update_flag(Flag::H, value % 16 == 0);
    }
    cycles
}

/// Decrements the byte a pair addresses: Z and H from the result, N
/// set, C kept.
#[verifier::rlimit(100)]
#[verifier::spinoff_prover]
pub fn dec_m(cpu: &mut CPU, register: RegisterName, cycles: u8) -> (r: u8)
    requires
        old(cpu).wf(),
        register.spec_is_r16(),
    ensures
        dec_m_rel(*old(cpu), *final(cpu), register, cycles, r),

{
    let address = cpu.registers.value_of_u16(&register);
    let value_from_memory = cpu.bus.bus_read(address);
    let decremented_value = value_from_memory.wrapping_sub(1);
    cpu.registers.update_flag(Flag::Z, decremented_value == 0);
    cpu.registers.update_flag(Flag::N, true);
    cpu.registers.update_flag(Flag::H, value_from_memory % 16 == 0);
    cpu.bus.bus_write(address, decremented_value);
    cycles
}

/// Stores the stack pointer at the immediate address, low byte first.
pub fn ld_u16_sp(cpu: &mut CPU, cycles: u8) -> (r: u8)
    requires
        old(cpu).wf(),
    ensures
        ld_u16_sp_rel(*old(cpu), *final(cpu), cycles, r),

{
    let address = cpu.fetch_word();
    let sp = cpu.registers.sp;
    cpu.bus.bus_write_word(address, sp);
    cycles
}

/// Pops a pair from the stack; popping into AF masks the low nibble of
/// F to zero.
pub fn pop_r(cpu: &mut CPU, register: RegisterName, cycles: u8) -> (r: u8)
    requires
        old(cpu).wf(),
        register.spec_is_r16(),
    ensures
        pop_r_rel(*old(cpu), *final(cpu), register, cycles, r),

{
    let popped_value = cpu.pop_stack_word();
    cpu.registers.write_in_u16(register, popped_value);
    cycles
}

/// Pushes a pair onto the stack, high byte first.
pub fn push_r(cpu: &mut CPU, register: RegisterName, cycles: u8) -> (r: u8)
    requires
        old(cpu).wf(),
        register.spec_is_r16(),
    ensures
        push_r_rel(*old(cpu), *final(cpu), register, cycles, r),

{
    let value = cpu.registers.value_of_u16(&register);
    cpu.push_stack_word(value);
    cycles
}

/// Jumps to the immediate address when the tested flag matches the
/// wanted state; the branch cost is added when taken.
pub fn jp_if(cpu: &mut CPU, flag: Flag, condition: bool, cycles: u8) -> (r: u8)
    requires
        old(cpu).wf(),
        cycles <= 200,
    ensures
        jp_if_rel(*old(cpu), *final(cpu), flag, condition, cycles, r),

{
    if cpu.registers.check_flag(flag) == condition {
        let pc = cpu.registers.pc;
        let address = cpu.bus.bus_read_word_wrapping(pc);
        cpu.registers.pc = address;
        cycles + 4
    } else {
        cpu.registers.pc = cpu.registers.pc.wrapping_add(2);
        cycles
    }
}

/// Jumps to the immediate address.
pub fn jp(cpu: &mut CPU, cycles: u8) -> (r: u8)
    requires
        old(cpu).wf(),
    ensures
        jp_rel(*old(cpu), *final(cpu), cycles, r),

{
    let pc = cpu.registers.pc;
    let address = cpu.bus.bus_read_word_wrapping(pc);
    cpu.registers.pc = address;
    cycles
}

/// Jumps to the address a pair holds.
pub fn jp_r(cpu: &mut CPU, register: RegisterName, cycles: u8) -> (r: u8)
    requires
        old(cpu).wf(),
        register.spec_is_r16(),
    ensures
        jp_r_rel(*old(cpu), *final(cpu), register, cycles, r),

{
    let address = cpu.registers.value_of_u16(&register);
    cpu.registers.pc = address;
    cycles
}

/// Calls the immediate address when the tested flag matches the wanted
/// state, pushing the address of the following instruction; the branch
/// cost is added when taken.
pub fn call_if(cpu: &mut CPU, flag: Flag, condition: bool, cycles: u8) -> (r: u8)
    requires
        old(cpu).wf(),
        cycles <= 200,
    ensures
        call_if_rel(*old(cpu), *final(cpu), flag, condition, cycles, r),

{
    if cpu.registers.check_flag(flag) == condition {
        let return_address = cpu.registers.pc.wrapping_add(2);
        let pc = cpu.registers.pc;
        let address = cpu.bus.bus_read_word_wrapping(pc);
        cpu.push_stack_word(return_address);
        cpu.registers.pc = address;
        cycles + 12
    } else {
        cpu.registers.pc = cpu.registers.pc.wrapping_add(2);
        cycles
    }
}

/// Calls the immediate address, pushing the address of the following
/// instruction.
pub fn call(cpu: &mut CPU, cycles: u8) -> (r: u8)
    requires
        old(cpu).wf(),
    ensures
        call_rel(*old(cpu), *final(cpu), cycles, r),

{
    let return_address = cpu.registers.pc.wrapping_add(2);
    let pc = cpu.registers.pc;
    let address = cpu.bus.bus_read_word_wrapping(pc);
    cpu.push_stack_word(return_address);
    cpu.registers.pc = address;
    cycles
}

/// Calls one of the fixed restart addresses, pushing the return
/// address.
pub fn rst(cpu: &mut CPU, address: u16, cycles: u8) -> (r: u8)
    requires
        old(cpu).wf(),
    ensures
        rst_rel(*old(cpu), *final(cpu), address, cycles, r),

{
    let pc = cpu.registers.pc;
    cpu.push_stack_word(pc);
    cpu.registers.pc = address;
    cycles
}

/// Returns from an interrupt handler: pops the return address and
/// re-enables the master interrupt switch.
pub fn reti(cpu: &mut CPU, cycles: u8) -> (r: u8)
    requires
        old(cpu).wf(),
    ensures
        reti_rel(*old(cpu), *final(cpu), cycles, r),

{
    let return_address = cpu.pop_stack_word();
    cpu.registers.pc = return_address;
    ei(cpu, 4);
    cycles
}

/// Stores A at 0xFF00 plus the immediate byte.
pub fn ld_ff00_u8_a(cpu: &mut CPU, cycles: u8) -> (r: u8)
    requires
        old(cpu).wf(),
    ensures
        ld_ff00_u8_a_rel(*old(cpu), *final(cpu), cycles, r),

{
    let offset = cpu.fetch_byte();
    let address = 0xFF00u16.wrapping_add(offset as u16);
    let value = cpu.registers.value_of(&RegisterName::A);
    cpu.bus.bus_write(address, value);
    cycles
}

/// Loads A from 0xFF00 plus the immediate byte.
pub fn ld_a_ff00_plus_u8(cpu: &mut CPU, cycles: u8) -> (r: u8)
    requires
        old(cpu).wf(),
    ensures
        ld_a_ff00_plus_u8_rel(*old(cpu), *final(cpu), cycles, r),

{
    let offset = cpu.fetch_byte();
    let address = 0xFF00u16.wrapping_add(offset as u16);
    let value = cpu.bus.bus_read(address);
    cpu.registers.write_in(RegisterName::A, value);
    cycles
}

/// Stores A at 0xFF00 plus C.
pub fn ld_ff00_c_a(cpu: &mut CPU, cycles: u8) -> (r: u8)
    requires
        old(cpu).wf(),
    ensures
        ld_ff00_c_a_rel(*old(cpu), *final(cpu), cycles, r),

{
    let c_value = cpu.registers.value_of(&RegisterName::C);
    let address = 0xFF00 + c_value as u16;
    let value = cpu.registers.value_of(&RegisterName::A);
    cpu.bus.bus_write(address, value);
    cycles
}

/// Loads A from 0xFF00 plus C.
pub fn ld_a_ff00_c(cpu: &mut CPU, cycles: u8) -> (r: u8)
    requires
        old(cpu).wf(),
    ensures
        ld_a_ff00_c_rel(*old(cpu), *final(cpu), cycles, r),

{
    let c_value = cpu.registers.value_of(&RegisterName::C);
    let address = 0xFF00 + c_value as u16;
    let value = cpu.bus.bus_read(address);
    cpu.registers.write_in(RegisterName::A, value);
    cycles
}

/// Stores A at the immediate address.
pub fn ld_u16_a(cpu: &mut CPU, cycles: u8) -> (r: u8)
    requires
        old(cpu).wf(),
    ensures
        ld_u16_a_rel(*old(cpu), *final(cpu), cycles, r),

{
    let a_value = cpu.registers.value_of(&RegisterName::A);
    let pc = cpu.registers.pc;
    let address = cpu.bus.bus_read_word_wrapping(pc);
    cpu.bus.bus_write(address, a_value);
    cpu.registers.pc = cpu.registers.pc.wrapping_add(2);
    cycles
}

/// Adds the signed immediate byte to the stack pointer: Z and N clear,
/// H and C from the low-byte addition.
#[verifier::rlimit(100)]
#[verifier::spinoff_prover]
pub fn add_sp_i8(cpu: &mut CPU, cycles: u8) -> (r: u8)
    requires
        old(cpu).wf(),
    ensures
        add_sp_i8_rel(*old(cpu), *final(cpu), cycles, r),

{
    let i8_value = cpu.fetch_byte() as i8;
    let i16_value = i8_value as u16;
    let sp = cpu.registers.sp;
    let half_carry = (sp % 16) + (i16_value % 16) > 15;
    let full_carry = (sp % 256) + (i16_value % 256) > 255;
    cpu.registers.sp = sp.wrapping_add(i16_value);
    cpu.registers.update_flag(Flag::Z, false);
    cpu.registers.update_flag(Flag::N, false);
    cpu.registers.update_flag(Flag::H, half_carry);
    cpu.registers.update_flag(Flag::C, full_carry);
    cycles
}

/// Stores a register at the immediate address.
pub fn ld_mvr(cpu: &mut CPU, register: RegisterName, cycles: u8) -> (r: u8)
    requires
        old(cpu).wf(),
        register.spec_is_r8(),
    ensures
        ld_mvr_rel(*old(cpu), *final(cpu), register, cycles, r),

{
    let pc = cpu.registers.pc;
    let address = cpu.bus.bus_read_word_wrapping(pc);
    let value_a = cpu.registers.value_of(&register);
    cpu.bus.bus_write(address, value_a);
    cpu.registers.pc = cpu.registers.pc.wrapping_add(2);
    cycles
}

/// Clears the master interrupt enable.
pub fn di(cpu: &mut CPU, cycles: u8) -> (r: u8)
    ensures
        di_rel(*old(cpu), *final(cpu), cycles, r),

{
    cpu.interrupt_enabled = false;
    cycles
}

/// Sets the master interrupt enable.
pub fn ei(cpu: &mut CPU, cycles: u8) -> (r: u8)
    ensures
        ei_rel(*old(cpu), *final(cpu), cycles, r),

{
    cpu.interrupt_enabled = true;
    cycles
}

/// Loads HL with the stack pointer plus the signed immediate byte: Z
/// and N clear, H and C from the low-byte addition.
pub fn ld_hl_spi8(cpu: &mut CPU, cycles: u8) -> (r: u8)
    requires
        old(cpu).wf(),
    ensures
        ld_hl_spi8_rel(*old(cpu), *final(cpu), cycles, r),

{
    proof {
        crate::registers::lemma_zero_f_wf();
    }
    cpu.registers.clear_all_flags();
    let sp = cpu.registers.sp;
    let value = cpu.fetch_byte() as i8;
    let extended_value = value as u16;
    let result = sp.wrapping_add(extended_value);
    if (sp % 256) + (extended_value % 256) > 255 {
        cpu.registers.set_flag(Flag::C);
    } else {
        cpu.registers.clear_flag(Flag::C);
    }
    if (sp % 16) + (extended_value % 16) > 15 {
        cpu.registers.set_flag(Flag::H);
    } else {
        cpu.registers.clear_flag(Flag::H);
    }
    cpu.registers.set_hl(result);
    cycles
}

/// Loads A from the byte the immediate address holds.
pub fn ld_rmv(cpu: &mut CPU, register: RegisterName, cycles: u8) -> (r: u8)
    requires
        old(cpu).wf(),
    ensures
        ld_rmv_rel(*old(cpu), *final(cpu), register, cycles, r),

{
    let pc = cpu.registers.pc;
    let address = cpu.bus.bus_read_word_wrapping(pc);
    let value_from_address = cpu.bus.bus_read(address);
    cpu.registers.a = value_from_address;
    cpu.registers.pc = cpu.registers.pc.wrapping_add(2);
    cycles
}

/// Latches the halt state; the step loop idles until an interrupt
/// becomes pending.
pub fn halt(cpu: &mut CPU, cycles: u8) -> (r: u8)
    ensures
        halt_rel(*old(cpu), *final(cpu), cycles, r),

{
    cpu.is_halted = true;
    cycles
}

} // verus!
