//! The prefixed opcode dispatcher: one match arm per prefixed opcode,
//! each calling its helper on the operand the opcode encodes and
//! returning its cycle cost: eight cycles, or twelve when the operand
//! is the byte HL addresses.

use vstd::prelude::*;
use crate::cpu::CPU;
use crate::cb_function::rlc;
use crate::cb_function::rrc;
use crate::cb_function::rl;
use crate::cb_function::rr;
use crate::cb_function::sla;
use crate::cb_function::sra;
use crate::cb_function::swap;
use crate::cb_function::srl;
use crate::cb_function::bit;
use crate::cb_function::res;
use crate::cb_function::bit_rel;
use crate::cb_function::res_rel;
use crate::cb_function::rl_rel;
use crate::cb_function::rlc_rel;
use crate::cb_function::rr_rel;
use crate::cb_function::rrc_rel;
use crate::cb_function::set_rel;
use crate::cb_function::sla_rel;
use crate::cb_function::sra_rel;
use crate::cb_function::srl_rel;
use crate::cb_function::swap_rel;
use crate::registers::RegisterName;

verus! {

/// What executing one prefixed instruction does, opcode by opcode:
/// each arm applies the relation of the helper the opcode selects, on
/// the operand it encodes; `r` is the reported machine-cycle count.
pub open spec fn spec_cb_instruction_rel(pre: CPU, post: CPU, opcode: u8, r: u8) -> bool {
    match opcode {
        0x00 => rlc_rel(pre, post, RegisterName::B) && r == 8,
        0x01 => rlc_rel(pre, post, RegisterName::C) && r == 8,
        0x02 => rlc_rel(pre, post, RegisterName::D) && r == 8,
        0x03 => rlc_rel(pre, post, RegisterName::E) && r == 8,
        0x04 => rlc_rel(pre, post, RegisterName::H) && r == 8,
        0x05 => rlc_rel(pre, post, RegisterName::L) && r == 8,
        0x06 => rlc_rel(pre, post, RegisterName::HL) && r == 12,
        0x07 => rlc_rel(pre, post, RegisterName::A) && r == 8,
        0x08 => rrc_rel(pre, post, RegisterName::B) && r == 8,
        0x09 => rrc_rel(pre, post, RegisterName::C) && r == 8,
        0x0A => rrc_rel(pre, post, RegisterName::D) && r == 8,
        0x0B => rrc_rel(pre, post, RegisterName::E) && r == 8,
        0x0C => rrc_rel(pre, post, RegisterName::H) && r == 8,
        0x0D => rrc_rel(pre, post, RegisterName::L) && r == 8,
        0x0E => rrc_rel(pre, post, RegisterName::HL) && r == 12,
        0x0F => rrc_rel(pre, post, RegisterName::A) && r == 8,
        0x10 => rl_rel(pre, post, RegisterName::B) && r == 8,
        0x11 => rl_rel(pre, post, RegisterName::C) && r == 8,
        0x12 => rl_rel(pre, post, RegisterName::D) && r == 8,
        0x13 => rl_rel(pre, post, RegisterName::E) && r == 8,
        0x14 => rl_rel(pre, post, RegisterName::H) && r == 8,
        0x15 => rl_rel(pre, post, RegisterName::L) && r == 8,
        0x16 => rl_rel(pre, post, RegisterName::HL) && r == 12,
        0x17 => rl_rel(pre, post, RegisterName::A) && r == 8,
        0x18 => rr_rel(pre, post, RegisterName::B) && r == 8,
        0x19 => rr_rel(pre, post, RegisterName::C) && r == 8,
        0x1A => rr_rel(pre, post, RegisterName::D) && r == 8,
        0x1B => rr_rel(pre, post, RegisterName::E) && r == 8,
        0x1C => rr_rel(pre, post, RegisterName::H) && r == 8,
        0x1D => rr_rel(pre, post, RegisterName::L) && r == 8,
        0x1E => rr_rel(pre, post, RegisterName::HL) && r == 12,
        0x1F => rr_rel(pre, post, RegisterName::A) && r == 8,
        0x20 => sla_rel(pre, post, RegisterName::B) && r == 8,
        0x21 => sla_rel(pre, post, RegisterName::C) && r == 8,
        0x22 => sla_rel(pre, post, RegisterName::D) && r == 8,
        0x23 => sla_rel(pre, post, RegisterName::E) && r == 8,
        0x24 => sla_rel(pre, post, RegisterName::H) && r == 8,
        0x25 => sla_rel(pre, post, RegisterName::L) && r == 8,
        0x26 => sla_rel(pre, post, RegisterName::HL) && r == 12,
        0x27 => sla_rel(pre, post, RegisterName::A) && r == 8,
        0x28 => sra_rel(pre, post, RegisterName::B) && r == 8,
        0x29 => sra_rel(pre, post, RegisterName::C) && r == 8,
        0x2A => sra_rel(pre, post, RegisterName::D) && r == 8,
        0x2B => sra_rel(pre, post, RegisterName::E) && r == 8,
        0x2C => sra_rel(pre, post, RegisterName::H) && r == 8,
        0x2D => sra_rel(pre, post, RegisterName::L) && r == 8,
        0x2E => sra_rel(pre, post, RegisterName::HL) && r == 12,
        0x2F => sra_rel(pre, post, RegisterName::A) && r == 8,
        0x30 => swap_rel(pre, post, RegisterName::B) && r == 8,
        0x31 => swap_rel(pre, post, RegisterName::C) && r == 8,
        0x32 => swap_rel(pre, post, RegisterName::D) && r == 8,
        0x33 => swap_rel(pre, post, RegisterName::E) && r == 8,
        0x34 => swap_rel(pre, post, RegisterName::H) && r == 8,
        0x35 => swap_rel(pre, post, RegisterName::L) && r == 8,
        0x36 => swap_rel(pre, post, RegisterName::HL) && r == 12,
        0x37 => swap_rel(pre, post, RegisterName::A) && r == 8,
        0x38 => srl_rel(pre, post, RegisterName::B) && r == 8,
        0x39 => srl_rel(pre, post, RegisterName::C) && r == 8,
        0x3A => srl_rel(pre, post, RegisterName::D) && r == 8,
        0x3B => srl_rel(pre, post, RegisterName::E) && r == 8,
        0x3C => srl_rel(pre, post, RegisterName::H) && r == 8,
        0x3D => srl_rel(pre, post, RegisterName::L) && r == 8,
        0x3E => srl_rel(pre, post, RegisterName::HL) && r == 12,
        0x3F => srl_rel(pre, post, RegisterName::A) && r == 8,
        0x40 => bit_rel(pre, post, 0, RegisterName::B) && r == 8,
        0x41 => bit_rel(pre, post, 0, RegisterName::C) && r == 8,
        0x42 => bit_rel(pre, post, 0, RegisterName::D) && r == 8,
        0x43 => bit_rel(pre, post, 0, RegisterName::E) && r == 8,
        0x44 => bit_rel(pre, post, 0, RegisterName::H) && r == 8,
        0x45 => bit_rel(pre, post, 0, RegisterName::L) && r == 8,
        0x46 => bit_rel(pre, post, 0, RegisterName::HL) && r == 12,
        0x47 => bit_rel(pre, post, 0, RegisterName::A) && r == 8,
        0x48 => bit_rel(pre, post, 1, RegisterName::B) && r == 8,
        0x49 => bit_rel(pre, post, 1, RegisterName::C) && r == 8,
        0x4A => bit_rel(pre, post, 1, RegisterName::D) && r == 8,
        0x4B => bit_rel(pre, post, 1, RegisterName::E) && r == 8,
        0x4C => bit_rel(pre, post, 1, RegisterName::H) && r == 8,
        0x4D => bit_rel(pre, post, 1, RegisterName::L) && r == 8,
        0x4E => bit_rel(pre, post, 1, RegisterName::HL) && r == 12,
        0x4F => bit_rel(pre, post, 1, RegisterName::A) && r == 8,
        0x50 => bit_rel(pre, post, 2, RegisterName::B) && r == 8,
        0x51 => bit_rel(pre, post, 2, RegisterName::C) && r == 8,
        0x52 => bit_rel(pre, post, 2, RegisterName::D) && r == 8,
        0x53 => bit_rel(pre, post, 2, RegisterName::E) && r == 8,
        0x54 => bit_rel(pre, post, 2, RegisterName::H) && r == 8,
        0x55 => bit_rel(pre, post, 2, RegisterName::L) && r == 8,
        0x56 => bit_rel(pre, post, 2, RegisterName::HL) && r == 12,
        0x57 => bit_rel(pre, post, 2, RegisterName::A) && r == 8,
        0x58 => bit_rel(pre, post, 3, RegisterName::B) && r == 8,
        0x59 => bit_rel(pre, post, 3, RegisterName::C) && r == 8,
        0x5A => bit_rel(pre, post, 3, RegisterName::D) && r == 8,
        0x5B => bit_rel(pre, post, 3, RegisterName::E) && r == 8,
        0x5C => bit_rel(pre, post, 3, RegisterName::H) && r == 8,
        0x5D => bit_rel(pre, post, 3, RegisterName::L) && r == 8,
        0x5E => bit_rel(pre, post, 3, RegisterName::HL) && r == 12,
        0x5F => bit_rel(pre, post, 3, RegisterName::A) && r == 8,
        0x60 => bit_rel(pre, post, 4, RegisterName::B) && r == 8,
        0x61 => bit_rel(pre, post, 4, RegisterName::C) && r == 8,
        0x62 => bit_rel(pre, post, 4, RegisterName::D) && r == 8,
        0x63 => bit_rel(pre, post, 4, RegisterName::E) && r == 8,
        0x64 => bit_rel(pre, post, 4, RegisterName::H) && r == 8,
        0x65 => bit_rel(pre, post, 4, RegisterName::L) && r == 8,
        0x66 => bit_rel(pre, post, 4, RegisterName::HL) && r == 12,
        0x67 => bit_rel(pre, post, 4, RegisterName::A) && r == 8,
        0x68 => bit_rel(pre, post, 5, RegisterName::B) && r == 8,
        0x69 => bit_rel(pre, post, 5, RegisterName::C) && r == 8,
        0x6A => bit_rel(pre, post, 5, RegisterName::D) && r == 8,
        0x6B => bit_rel(pre, post, 5, RegisterName::E) && r == 8,
        0x6C => bit_rel(pre, post, 5, RegisterName::H) && r == 8,
        0x6D => bit_rel(pre, post, 5, RegisterName::L) && r == 8,
        0x6E => bit_rel(pre, post, 5, RegisterName::HL) && r == 12,
        0x6F => bit_rel(pre, post, 5, RegisterName::A) && r == 8,
        0x70 => bit_rel(pre, post, 6, RegisterName::B) && r == 8,
        0x71 => bit_rel(pre, post, 6, RegisterName::C) && r == 8,
        0x72 => bit_rel(pre, post, 6, RegisterName::D) && r == 8,
        0x73 => bit_rel(pre, post, 6, RegisterName::E) && r == 8,
        0x74 => bit_rel(pre, post, 6, RegisterName::H) && r == 8,
        0x75 => bit_rel(pre, post, 6, RegisterName::L) && r == 8,
        0x76 => bit_rel(pre, post, 6, RegisterName::HL) && r == 12,
        0x77 => bit_rel(pre, post, 6, RegisterName::A) && r == 8,
        0x78 => bit_rel(pre, post, 7, RegisterName::B) && r == 8,
        0x79 => bit_rel(pre, post, 7, RegisterName::C) && r == 8,
        0x7A => bit_rel(pre, post, 7, RegisterName::D) && r == 8,
        0x7B => bit_rel(pre, post, 7, RegisterName::E) && r == 8,
        0x7C => bit_rel(pre, post, 7, RegisterName::H) && r == 8,
        0x7D => bit_rel(pre, post, 7, RegisterName::L) && r == 8,
        0x7E => bit_rel(pre, post, 7, RegisterName::HL) && r == 12,
        0x7F => bit_rel(pre, post, 7, RegisterName::A) && r == 8,
        0x80 => res_rel(pre, post, 0, RegisterName::B) && r == 8,
        0x81 => res_rel(pre, post, 0, RegisterName::C) && r == 8,
        0x82 => res_rel(pre, post, 0, RegisterName::D) && r == 8,
        0x83 => res_rel(pre, post, 0, RegisterName::E) && r == 8,
        0x84 => res_rel(pre, post, 0, RegisterName::H) && r == 8,
        0x85 => res_rel(pre, post, 0, RegisterName::L) && r == 8,
        0x86 => res_rel(pre, post, 0, RegisterName::HL) && r == 12,
        0x87 => res_rel(pre, post, 0, RegisterName::A) && r == 8,
        0x88 => res_rel(pre, post, 1, RegisterName::B) && r == 8,
        0x89 => res_rel(pre, post, 1, RegisterName::C) && r == 8,
        0x8A => res_rel(pre, post, 1, RegisterName::D) && r == 8,
        0x8B => res_rel(pre, post, 1, RegisterName::E) && r == 8,
        0x8C => res_rel(pre, post, 1, RegisterName::H) && r == 8,
        0x8D => res_rel(pre, post, 1, RegisterName::L) && r == 8,
        0x8E => res_rel(pre, post, 1, RegisterName::HL) && r == 12,
        0x8F => res_rel(pre, post, 1, RegisterName::A) && r == 8,
        0x90 => res_rel(pre, post, 2, RegisterName::B) && r == 8,
        0x91 => res_rel(pre, post, 2, RegisterName::C) && r == 8,
        0x92 => res_rel(pre, post, 2, RegisterName::D) && r == 8,
        0x93 => res_rel(pre, post, 2, RegisterName::E) && r == 8,
        0x94 => res_rel(pre, post, 2, RegisterName::H) && r == 8,
        0x95 => res_rel(pre, post, 2, RegisterName::L) && r == 8,
        0x96 => res_rel(pre, post, 2, RegisterName::HL) && r == 12,
        0x97 => res_rel(pre, post, 2, RegisterName::A) && r == 8,
        0x98 => res_rel(pre, post, 3, RegisterName::B) && r == 8,
        0x99 => res_rel(pre, post, 3, RegisterName::C) && r == 8,
        0x9A => res_rel(pre, post, 3, RegisterName::D) && r == 8,
        0x9B => res_rel(pre, post, 3, RegisterName::E) && r == 8,
        0x9C => res_rel(pre, post, 3, RegisterName::H) && r == 8,
        0x9D => res_rel(pre, post, 3, RegisterName::L) && r == 8,
        0x9E => res_rel(pre, post, 3, RegisterName::HL) && r == 12,
        0x9F => res_rel(pre, post, 3, RegisterName::A) && r == 8,
        0xA0 => res_rel(pre, post, 4, RegisterName::B) && r == 8,
        0xA1 => res_rel(pre, post, 4, RegisterName::C) && r == 8,
        0xA2 => res_rel(pre, post, 4, RegisterName::D) && r == 8,
        0xA3 => res_rel(pre, post, 4, RegisterName::E) && r == 8,
        0xA4 => res_rel(pre, post, 4, RegisterName::H) && r == 8,
        0xA5 => res_rel(pre, post, 4, RegisterName::L) && r == 8,
        0xA6 => res_rel(pre, post, 4, RegisterName::HL) && r == 12,
        0xA7 => res_rel(pre, post, 4, RegisterName::A) && r == 8,
        0xA8 => res_rel(pre, post, 5, RegisterName::B) && r == 8,
        0xA9 => res_rel(pre, post, 5, RegisterName::C) && r == 8,
        0xAA => res_rel(pre, post, 5, RegisterName::D) && r == 8,
        0xAB => res_rel(pre, post, 5, RegisterName::E) && r == 8,
        0xAC => res_rel(pre, post, 5, RegisterName::H) && r == 8,
        0xAD => res_rel(pre, post, 5, RegisterName::L) && r == 8,
        0xAE => res_rel(pre, post, 5, RegisterName::HL) && r == 12,
        0xAF => res_rel(pre, post, 5, RegisterName::A) && r == 8,
        0xB0 => res_rel(pre, post, 6, RegisterName::B) && r == 8,
        0xB1 => res_rel(pre, post, 6, RegisterName::C) && r == 8,
        0xB2 => res_rel(pre, post, 6, RegisterName::D) && r == 8,
        0xB3 => res_rel(pre, post, 6, RegisterName::E) && r == 8,
        0xB4 => res_rel(pre, post, 6, RegisterName::H) && r == 8,
        0xB5 => res_rel(pre, post, 6, RegisterName::L) && r == 8,
        0xB6 => res_rel(pre, post, 6, RegisterName::HL) && r == 12,
        0xB7 => res_rel(pre, post, 6, RegisterName::A) && r == 8,
        0xB8 => res_rel(pre, post, 7, RegisterName::B) && r == 8,
        0xB9 => res_rel(pre, post, 7, RegisterName::C) && r == 8,
        0xBA => res_rel(pre, post, 7, RegisterName::D) && r == 8,
        0xBB => res_rel(pre, post, 7, RegisterName::E) && r == 8,
        0xBC => res_rel(pre, post, 7, RegisterName::H) && r == 8,
        0xBD => res_rel(pre, post, 7, RegisterName::L) && r == 8,
        0xBE => res_rel(pre, post, 7, RegisterName::HL) && r == 12,
        0xBF => res_rel(pre, post, 7, RegisterName::A) && r == 8,
        0xC0 => set_rel(pre, post, 0, RegisterName::B) && r == 8,
        0xC1 => set_rel(pre, post, 0, RegisterName::C) && r == 8,
        0xC2 => set_rel(pre, post, 0, RegisterName::D) && r == 8,
        0xC3 => set_rel(pre, post, 0, RegisterName::E) && r == 8,
        0xC4 => set_rel(pre, post, 0, RegisterName::H) && r == 8,
        0xC5 => set_rel(pre, post, 0, RegisterName::L) && r == 8,
        0xC6 => set_rel(pre, post, 0, RegisterName::HL) && r == 12,
        0xC7 => set_rel(pre, post, 0, RegisterName::A) && r == 8,
        0xC8 => set_rel(pre, post, 1, RegisterName::B) && r == 8,
        0xC9 => set_rel(pre, post, 1, RegisterName::C) && r == 8,
        0xCA => set_rel(pre, post, 1, RegisterName::D) && r == 8,
        0xCB => set_rel(pre, post, 1, RegisterName::E) && r == 8,
        0xCC => set_rel(pre, post, 1, RegisterName::H) && r == 8,
        0xCD => set_rel(pre, post, 1, RegisterName::L) && r == 8,
        0xCE => set_rel(pre, post, 1, RegisterName::HL) && r == 12,
        0xCF => set_rel(pre, post, 1, RegisterName::A) && r == 8,
        0xD0 => set_rel(pre, post, 2, RegisterName::B) && r == 8,
        0xD1 => set_rel(pre, post, 2, RegisterName::C) && r == 8,
        0xD2 => set_rel(pre, post, 2, RegisterName::D) && r == 8,
        0xD3 => set_rel(pre, post, 2, RegisterName::E) && r == 8,
        0xD4 => set_rel(pre, post, 2, RegisterName::H) && r == 8,
        0xD5 => set_rel(pre, post, 2, RegisterName::L) && r == 8,
        0xD6 => set_rel(pre, post, 2, RegisterName::HL) && r == 12,
        0xD7 => set_rel(pre, post, 2, RegisterName::A) && r == 8,
        0xD8 => set_rel(pre, post, 3, RegisterName::B) && r == 8,
        0xD9 => set_rel(pre, post, 3, RegisterName::C) && r == 8,
        0xDA => set_rel(pre, post, 3, RegisterName::D) && r == 8,
        0xDB => set_rel(pre, post, 3, RegisterName::E) && r == 8,
        0xDC => set_rel(pre, post, 3, RegisterName::H) && r == 8,
        0xDD => set_rel(pre, post, 3, RegisterName::L) && r == 8,
        0xDE => set_rel(pre, post, 3, RegisterName::HL) && r == 12,
        0xDF => set_rel(pre, post, 3, RegisterName::A) && r == 8,
        0xE0 => set_rel(pre, post, 4, RegisterName::B) && r == 8,
        0xE1 => set_rel(pre, post, 4, RegisterName::C) && r == 8,
        0xE2 => set_rel(pre, post, 4, RegisterName::D) && r == 8,
        0xE3 => set_rel(pre, post, 4, RegisterName::E) && r == 8,
        0xE4 => set_rel(pre, post, 4, RegisterName::H) && r == 8,
        0xE5 => set_rel(pre, post, 4, RegisterName::L) && r == 8,
        0xE6 => set_rel(pre, post, 4, RegisterName::HL) && r == 12,
        0xE7 => set_rel(pre, post, 4, RegisterName::A) && r == 8,
        0xE8 => set_rel(pre, post, 5, RegisterName::B) && r == 8,
        0xE9 => set_rel(pre, post, 5, RegisterName::C) && r == 8,
        0xEA => set_rel(pre, post, 5, RegisterName::D) && r == 8,
        0xEB => set_rel(pre, post, 5, RegisterName::E) && r == 8,
        0xEC => set_rel(pre, post, 5, RegisterName::H) && r == 8,
        0xED => set_rel(pre, post, 5, RegisterName::L) && r == 8,
        0xEE => set_rel(pre, post, 5, RegisterName::HL) && r == 12,
        0xEF => set_rel(pre, post, 5, RegisterName::A) && r == 8,
        0xF0 => set_rel(pre, post, 6, RegisterName::B) && r == 8,
        0xF1 => set_rel(pre, post, 6, RegisterName::C) && r == 8,
        0xF2 => set_rel(pre, post, 6, RegisterName::D) && r == 8,
        0xF3 => set_rel(pre, post, 6, RegisterName::E) && r == 8,
        0xF4 => set_rel(pre, post, 6, RegisterName::H) && r == 8,
        0xF5 => set_rel(pre, post, 6, RegisterName::L) && r == 8,
        0xF6 => set_rel(pre, post, 6, RegisterName::HL) && r == 12,
        0xF7 => set_rel(pre, post, 6, RegisterName::A) && r == 8,
        0xF8 => set_rel(pre, post, 7, RegisterName::B) && r == 8,
        0xF9 => set_rel(pre, post, 7, RegisterName::C) && r == 8,
        0xFA => set_rel(pre, post, 7, RegisterName::D) && r == 8,
        0xFB => set_rel(pre, post, 7, RegisterName::E) && r == 8,
        0xFC => set_rel(pre, post, 7, RegisterName::H) && r == 8,
        0xFD => set_rel(pre, post, 7, RegisterName::L) && r == 8,
        0xFE => set_rel(pre, post, 7, RegisterName::HL) && r == 12,
        0xFF => set_rel(pre, post, 7, RegisterName::A) && r == 8,
    }
}



/// Executes one prefixed rotate, shift or swap (0x00 to 0x3F).
fn execute_cb_rotates(cpu: &mut CPU, opcode: u8) -> (r: u8)
    requires
        old(cpu).wf(),
        0x00 <= opcode <= 0x3F,
    ensures
        final(cpu).wf(),
        8 <= r <= 12,
        spec_cb_instruction_rel(*old(cpu), *final(cpu), opcode, r),
{
    match opcode {
        0x00 => {
            rlc(cpu, RegisterName::B);
            8
        },
        0x01 => {
            rlc(cpu, RegisterName::C);
            8
        },
        0x02 => {
            rlc(cpu, RegisterName::D);
            8
        },
        0x03 => {
            rlc(cpu, RegisterName::E);
            8
        },
        0x04 => {
            rlc(cpu, RegisterName::H);
            8
        },
        0x05 => {
            rlc(cpu, RegisterName::L);
            8
        },
        0x06 => {
            rlc(cpu, RegisterName::HL);
            12
        },
        0x07 => {
            rlc(cpu, RegisterName::A);
            8
        },
        0x08 => {
            rrc(cpu, RegisterName::B);
            8
        },
        0x09 => {
            rrc(cpu, RegisterName::C);
            8
        },
        0x0A => {
            rrc(cpu, RegisterName::D);
            8
        },
        0x0B => {
            rrc(cpu, RegisterName::E);
            8
        },
        0x0C => {
            rrc(cpu, RegisterName::H);
            8
        },
        0x0D => {
            rrc(cpu, RegisterName::L);
            8
        },
        0x0E => {
            rrc(cpu, RegisterName::HL);
            12
        },
        0x0F => {
            rrc(cpu, RegisterName::A);
            8
        },
        0x10 => {
            rl(cpu, RegisterName::B);
            8
        },
        0x11 => {
            rl(cpu, RegisterName::C);
            8
        },
        0x12 => {
            rl(cpu, RegisterName::D);
            8
        },
        0x13 => {
            rl(cpu, RegisterName::E);
            8
        },
        0x14 => {
            rl(cpu, RegisterName::H);
            8
        },
        0x15 => {
            rl(cpu, RegisterName::L);
            8
        },
        0x16 => {
            rl(cpu, RegisterName::HL);
            12
        },
        0x17 => {
            rl(cpu, RegisterName::A);
            8
        },
        0x18 => {
            rr(cpu, RegisterName::B);
            8
        },
        0x19 => {
            rr(cpu, RegisterName::C);
            8
        },
        0x1A => {
            rr(cpu, RegisterName::D);
            8
        },
        0x1B => {
            rr(cpu, RegisterName::E);
            8
        },
        0x1C => {
            rr(cpu, RegisterName::H);
            8
        },
        0x1D => {
            rr(cpu, RegisterName::L);
            8
        },
        0x1E => {
            rr(cpu, RegisterName::HL);
            12
        },
        0x1F => {
            rr(cpu, RegisterName::A);
            8
        },
        0x20 => {
            sla(cpu, RegisterName::B);
            8
        },
        0x21 => {
            sla(cpu, RegisterName::C);
            8
        },
        0x22 => {
            sla(cpu, RegisterName::D);
            8
        },
        0x23 => {
            sla(cpu, RegisterName::E);
            8
        },
        0x24 => {
            sla(cpu, RegisterName::H);
            8
        },
        0x25 => {
            sla(cpu, RegisterName::L);
            8
        },
        0x26 => {
            sla(cpu, RegisterName::HL);
            12
        },
        0x27 => {
            sla(cpu, RegisterName::A);
            8
        },
        0x28 => {
            sra(cpu, RegisterName::B);
            8
        },
        0x29 => {
            sra(cpu, RegisterName::C);
            8
        },
        0x2A => {
            sra(cpu, RegisterName::D);
            8
        },
        0x2B => {
            sra(cpu, RegisterName::E);
            8
        },
        0x2C => {
            sra(cpu, RegisterName::H);
            8
        },
        0x2D => {
            sra(cpu, RegisterName::L);
            8
        },
        0x2E => {
            sra(cpu, RegisterName::HL);
            12
        },
        0x2F => {
            sra(cpu, RegisterName::A);
            8
        },
        0x30 => {
            swap(cpu, RegisterName::B);
            8
        },
        0x31 => {
            swap(cpu, RegisterName::C);
            8
        },
        0x32 => {
            swap(cpu, RegisterName::D);
            8
        },
        0x33 => {
            swap(cpu, RegisterName::E);
            8
        },
        0x34 => {
            swap(cpu, RegisterName::H);
            8
        },
        0x35 => {
            swap(cpu, RegisterName::L);
            8
        },
        0x36 => {
            swap(cpu, RegisterName::HL);
            12
        },
        0x37 => {
            swap(cpu, RegisterName::A);
            8
        },
        0x38 => {
            srl(cpu, RegisterName::B);
            8
        },
        0x39 => {
            srl(cpu, RegisterName::C);
            8
        },
        0x3A => {
            srl(cpu, RegisterName::D);
            8
        },
        0x3B => {
            srl(cpu, RegisterName::E);
            8
        },
        0x3C => {
            srl(cpu, RegisterName::H);
            8
        },
        0x3D => {
            srl(cpu, RegisterName::L);
            8
        },
        0x3E => {
            srl(cpu, RegisterName::HL);
            12
        },
        0x3F => {
            srl(cpu, RegisterName::A);
            8
        },
        _ => 8,
    }
}

/// Executes one prefixed bit test (0x40 to 0x7F).
fn execute_cb_bit(cpu: &mut CPU, opcode: u8) -> (r: u8)
    requires
        old(cpu).wf(),
        0x40 <= opcode <= 0x7F,
    ensures
        final(cpu).wf(),
        8 <= r <= 12,
        spec_cb_instruction_rel(*old(cpu), *final(cpu), opcode, r),
{
    match opcode {
        0x40 => {
            bit(cpu, 0, RegisterName::B);
            8
        },
        0x41 => {
            bit(cpu, 0, RegisterName::C);
            8
        },
        0x42 => {
            bit(cpu, 0, RegisterName::D);
            8
        },
        0x43 => {
            bit(cpu, 0, RegisterName::E);
            8
        },
        0x44 => {
            bit(cpu, 0, RegisterName::H);
            8
        },
        0x45 => {
            bit(cpu, 0, RegisterName::L);
            8
        },
        0x46 => {
            bit(cpu, 0, RegisterName::HL);
            12
        },
        0x47 => {
            bit(cpu, 0, RegisterName::A);
            8
        },
        0x48 => {
            bit(cpu, 1, RegisterName::B);
            8
        },
        0x49 => {
            bit(cpu, 1, RegisterName::C);
            8
        },
        0x4A => {
            bit(cpu, 1, RegisterName::D);
            8
        },
        0x4B => {
            bit(cpu, 1, RegisterName::E);
            8
        },
        0x4C => {
            bit(cpu, 1, RegisterName::H);
            8
        },
        0x4D => {
            bit(cpu, 1, RegisterName::L);
            8
        },
        0x4E => {
            bit(cpu, 1, RegisterName::HL);
            12
        },
        0x4F => {
            bit(cpu, 1, RegisterName::A);
            8
        },
        0x50 => {
            bit(cpu, 2, RegisterName::B);
            8
        },
        0x51 => {
            bit(cpu, 2, RegisterName::C);
            8
        },
        0x52 => {
            bit(cpu, 2, RegisterName::D);
            8
        },
        0x53 => {
            bit(cpu, 2, RegisterName::E);
            8
        },
        0x54 => {
            bit(cpu, 2, RegisterName::H);
            8
        },
        0x55 => {
            bit(cpu, 2, RegisterName::L);
            8
        },
        0x56 => {
            bit(cpu, 2, RegisterName::HL);
            12
        },
        0x57 => {
            bit(cpu, 2, RegisterName::A);
            8
        },
        0x58 => {
            bit(cpu, 3, RegisterName::B);
            8
        },
        0x59 => {
            bit(cpu, 3, RegisterName::C);
            8
        },
        0x5A => {
            bit(cpu, 3, RegisterName::D);
            8
        },
        0x5B => {
            bit(cpu, 3, RegisterName::E);
            8
        },
        0x5C => {
            bit(cpu, 3, RegisterName::H);
            8
        },
        0x5D => {
            bit(cpu, 3, RegisterName::L);
            8
        },
        0x5E => {
            bit(cpu, 3, RegisterName::HL);
            12
        },
        0x5F => {
            bit(cpu, 3, RegisterName::A);
            8
        },
        0x60 => {
            bit(cpu, 4, RegisterName::B);
            8
        },
        0x61 => {
            bit(cpu, 4, RegisterName::C);
            8
        },
        0x62 => {
            bit(cpu, 4, RegisterName::D);
            8
        },
        0x63 => {
            bit(cpu, 4, RegisterName::E);
            8
        },
        0x64 => {
            bit(cpu, 4, RegisterName::H);
            8
        },
        0x65 => {
            bit(cpu, 4, RegisterName::L);
            8
        },
        0x66 => {
            bit(cpu, 4, RegisterName::HL);
            12
        },
        0x67 => {
            bit(cpu, 4, RegisterName::A);
            8
        },
        0x68 => {
            bit(cpu, 5, RegisterName::B);
            8
        },
        0x69 => {
            bit(cpu, 5, RegisterName::C);
            8
        },
        0x6A => {
            bit(cpu, 5, RegisterName::D);
            8
        },
        0x6B => {
            bit(cpu, 5, RegisterName::E);
            8
        },
        0x6C => {
            bit(cpu, 5, RegisterName::H);
            8
        },
        0x6D => {
            bit(cpu, 5, RegisterName::L);
            8
        },
        0x6E => {
            bit(cpu, 5, RegisterName::HL);
            12
        },
        0x6F => {
            bit(cpu, 5, RegisterName::A);
            8
        },
        0x70 => {
            bit(cpu, 6, RegisterName::B);
            8
        },
        0x71 => {
            bit(cpu, 6, RegisterName::C);
            8
        },
        0x72 => {
            bit(cpu, 6, RegisterName::D);
            8
        },
        0x73 => {
            bit(cpu, 6, RegisterName::E);
            8
        },
        0x74 => {
            bit(cpu, 6, RegisterName::H);
            8
        },
        0x75 => {
            bit(cpu, 6, RegisterName::L);
            8
        },
        0x76 => {
            bit(cpu, 6, RegisterName::HL);
            12
        },
        0x77 => {
            bit(cpu, 6, RegisterName::A);
            8
        },
        0x78 => {
            bit(cpu, 7, RegisterName::B);
            8
        },
        0x79 => {
            bit(cpu, 7, RegisterName::C);
            8
        },
        0x7A => {
            bit(cpu, 7, RegisterName::D);
            8
        },
        0x7B => {
            bit(cpu, 7, RegisterName::E);
            8
        },
        0x7C => {
            bit(cpu, 7, RegisterName::H);
            8
        },
        0x7D => {
            bit(cpu, 7, RegisterName::L);
            8
        },
        0x7E => {
            bit(cpu, 7, RegisterName::HL);
            12
        },
        0x7F => {
            bit(cpu, 7, RegisterName::A);
            8
        },
        _ => 8,
    }
}

/// Executes one prefixed bit reset (0x80 to 0xBF).
fn execute_cb_res(cpu: &mut CPU, opcode: u8) -> (r: u8)
    requires
        old(cpu).wf(),
        0x80 <= opcode <= 0xBF,
    ensures
        final(cpu).wf(),
        8 <= r <= 12,
        spec_cb_instruction_rel(*old(cpu), *final(cpu), opcode, r),
{
    match opcode {
        0x80 => {
            res(cpu, 0, RegisterName::B);
            8
        },
        0x81 => {
            res(cpu, 0, RegisterName::C);
            8
        },
        0x82 => {
            res(cpu, 0, RegisterName::D);
            8
        },
        0x83 => {
            res(cpu, 0, RegisterName::E);
            8
        },
        0x84 => {
            res(cpu, 0, RegisterName::H);
            8
        },
        0x85 => {
            res(cpu, 0, RegisterName::L);
            8
        },
        0x86 => {
            res(cpu, 0, RegisterName::HL);
            12
        },
        0x87 => {
            res(cpu, 0, RegisterName::A);
            8
        },
        0x88 => {
            res(cpu, 1, RegisterName::B);
            8
        },
        0x89 => {
            res(cpu, 1, RegisterName::C);
            8
        },
        0x8A => {
            res(cpu, 1, RegisterName::D);
            8
        },
        0x8B => {
            res(cpu, 1, RegisterName::E);
            8
        },
        0x8C => {
            res(cpu, 1, RegisterName::H);
            8
        },
        0x8D => {
            res(cpu, 1, RegisterName::L);
            8
        },
        0x8E => {
            res(cpu, 1, RegisterName::HL);
            12
        },
        0x8F => {
            res(cpu, 1, RegisterName::A);
            8
        },
        0x90 => {
            res(cpu, 2, RegisterName::B);
            8
        },
        0x91 => {
            res(cpu, 2, RegisterName::C);
            8
        },
        0x92 => {
            res(cpu, 2, RegisterName::D);
            8
        },
        0x93 => {
            res(cpu, 2, RegisterName::E);
            8
        },
        0x94 => {
            res(cpu, 2, RegisterName::H);
            8
        },
        0x95 => {
            res(cpu, 2, RegisterName::L);
            8
        },
        0x96 => {
            res(cpu, 2, RegisterName::HL);
            12
        },
        0x97 => {
            res(cpu, 2, RegisterName::A);
            8
        },
        0x98 => {
            res(cpu, 3, RegisterName::B);
            8
        },
        0x99 => {
            res(cpu, 3, RegisterName::C);
            8
        },
        0x9A => {
            res(cpu, 3, RegisterName::D);
            8
        },
        0x9B => {
            res(cpu, 3, RegisterName::E);
            8
        },
        0x9C => {
            res(cpu, 3, RegisterName::H);
            8
        },
        0x9D => {
            res(cpu, 3, RegisterName::L);
            8
        },
        0x9E => {
            res(cpu, 3, RegisterName::HL);
            12
        },
        0x9F => {
            res(cpu, 3, RegisterName::A);
            8
        },
        0xA0 => {
            res(cpu, 4, RegisterName::B);
            8
        },
        0xA1 => {
            res(cpu, 4, RegisterName::C);
            8
        },
        0xA2 => {
            res(cpu, 4, RegisterName::D);
            8
        },
        0xA3 => {
            res(cpu, 4, RegisterName::E);
            8
        },
        0xA4 => {
            res(cpu, 4, RegisterName::H);
            8
        },
        0xA5 => {
            res(cpu, 4, RegisterName::L);
            8
        },
        0xA6 => {
            res(cpu, 4, RegisterName::HL);
            12
        },
        0xA7 => {
            res(cpu, 4, RegisterName::A);
            8
        },
        0xA8 => {
            res(cpu, 5, RegisterName::B);
            8
        },
        0xA9 => {
            res(cpu, 5, RegisterName::C);
            8
        },
        0xAA => {
            res(cpu, 5, RegisterName::D);
            8
        },
        0xAB => {
            res(cpu, 5, RegisterName::E);
            8
        },
        0xAC => {
            res(cpu, 5, RegisterName::H);
            8
        },
        0xAD => {
            res(cpu, 5, RegisterName::L);
            8
        },
        0xAE => {
            res(cpu, 5, RegisterName::HL);
            12
        },
        0xAF => {
            res(cpu, 5, RegisterName::A);
            8
        },
        0xB0 => {
            res(cpu, 6, RegisterName::B);
            8
        },
        0xB1 => {
            res(cpu, 6, RegisterName::C);
            8
        },
        0xB2 => {
            res(cpu, 6, RegisterName::D);
            8
        },
        0xB3 => {
            res(cpu, 6, RegisterName::E);
            8
        },
        0xB4 => {
            res(cpu, 6, RegisterName::H);
            8
        },
        0xB5 => {
            res(cpu, 6, RegisterName::L);
            8
        },
        0xB6 => {
            res(cpu, 6, RegisterName::HL);
            12
        },
        0xB7 => {
            res(cpu, 6, RegisterName::A);
            8
        },
        0xB8 => {
            res(cpu, 7, RegisterName::B);
            8
        },
        0xB9 => {
            res(cpu, 7, RegisterName::C);
            8
        },
        0xBA => {
            res(cpu, 7, RegisterName::D);
            8
        },
        0xBB => {
            res(cpu, 7, RegisterName::E);
            8
        },
        0xBC => {
            res(cpu, 7, RegisterName::H);
            8
        },
        0xBD => {
            res(cpu, 7, RegisterName::L);
            8
        },
        0xBE => {
            res(cpu, 7, RegisterName::HL);
            12
        },
        0xBF => {
            res(cpu, 7, RegisterName::A);
            8
        },
        _ => 8,
    }
}

/// Executes one prefixed bit set (0xC0 to 0xFF).
fn execute_cb_set(cpu: &mut CPU, opcode: u8) -> (r: u8)
    requires
        old(cpu).wf(),
        0xC0 <= opcode <= 0xFF,
    ensures
        final(cpu).wf(),
        8 <= r <= 12,
        spec_cb_instruction_rel(*old(cpu), *final(cpu), opcode, r),
{
    match opcode {
        0xC0 => {
            crate::cb_function::set(cpu, 0, RegisterName::B);
            8
        },
        0xC1 => {
            crate::cb_function::set(cpu, 0, RegisterName::C);
            8
        },
        0xC2 => {
            crate::cb_function::set(cpu, 0, RegisterName::D);
            8
        },
        0xC3 => {
            crate::cb_function::set(cpu, 0, RegisterName::E);
            8
        },
        0xC4 => {
            crate::cb_function::set(cpu, 0, RegisterName::H);
            8
        },
        0xC5 => {
            crate::cb_function::set(cpu, 0, RegisterName::L);
            8
        },
        0xC6 => {
            crate::cb_function::set(cpu, 0, RegisterName::HL);
            12
        },
        0xC7 => {
            crate::cb_function::set(cpu, 0, RegisterName::A);
            8
        },
        0xC8 => {
            crate::cb_function::set(cpu, 1, RegisterName::B);
            8
        },
        0xC9 => {
            crate::cb_function::set(cpu, 1, RegisterName::C);
            8
        },
        0xCA => {
            crate::cb_function::set(cpu, 1, RegisterName::D);
            8
        },
        0xCB => {
            crate::cb_function::set(cpu, 1, RegisterName::E);
            8
        },
        0xCC => {
            crate::cb_function::set(cpu, 1, RegisterName::H);
            8
        },
        0xCD => {
            crate::cb_function::set(cpu, 1, RegisterName::L);
            8
        },
        0xCE => {
            crate::cb_function::set(cpu, 1, RegisterName::HL);
            12
        },
        0xCF => {
            crate::cb_function::set(cpu, 1, RegisterName::A);
            8
        },
        0xD0 => {
            crate::cb_function::set(cpu, 2, RegisterName::B);
            8
        },
        0xD1 => {
            crate::cb_function::set(cpu, 2, RegisterName::C);
            8
        },
        0xD2 => {
            crate::cb_function::set(cpu, 2, RegisterName::D);
            8
        },
        0xD3 => {
            crate::cb_function::set(cpu, 2, RegisterName::E);
            8
        },
        0xD4 => {
            crate::cb_function::set(cpu, 2, RegisterName::H);
            8
        },
        0xD5 => {
            crate::cb_function::set(cpu, 2, RegisterName::L);
            8
        },
        0xD6 => {
            crate::cb_function::set(cpu, 2, RegisterName::HL);
            12
        },
        0xD7 => {
            crate::cb_function::set(cpu, 2, RegisterName::A);
            8
        },
        0xD8 => {
            crate::cb_function::set(cpu, 3, RegisterName::B);
            8
        },
        0xD9 => {
            crate::cb_function::set(cpu, 3, RegisterName::C);
            8
        },
        0xDA => {
            crate::cb_function::set(cpu, 3, RegisterName::D);
            8
        },
        0xDB => {
            crate::cb_function::set(cpu, 3, RegisterName::E);
            8
        },
        0xDC => {
            crate::cb_function::set(cpu, 3, RegisterName::H);
            8
        },
        0xDD => {
            crate::cb_function::set(cpu, 3, RegisterName::L);
            8
        },
        0xDE => {
            crate::cb_function::set(cpu, 3, RegisterName::HL);
            12
        },
        0xDF => {
            crate::cb_function::set(cpu, 3, RegisterName::A);
            8
        },
        0xE0 => {
            crate::cb_function::set(cpu, 4, RegisterName::B);
            8
        },
        0xE1 => {
            crate::cb_function::set(cpu, 4, RegisterName::C);
            8
        },
        0xE2 => {
            crate::cb_function::set(cpu, 4, RegisterName::D);
            8
        },
        0xE3 => {
            crate::cb_function::set(cpu, 4, RegisterName::E);
            8
        },
        0xE4 => {
            crate::cb_function::set(cpu, 4, RegisterName::H);
            8
        },
        0xE5 => {
            crate::cb_function::set(cpu, 4, RegisterName::L);
            8
        },
        0xE6 => {
            crate::cb_function::set(cpu, 4, RegisterName::HL);
            12
        },
        0xE7 => {
            crate::cb_function::set(cpu, 4, RegisterName::A);
            8
        },
        0xE8 => {
            crate::cb_function::set(cpu, 5, RegisterName::B);
            8
        },
        0xE9 => {
            crate::cb_function::set(cpu, 5, RegisterName::C);
            8
        },
        0xEA => {
            crate::cb_function::set(cpu, 5, RegisterName::D);
            8
        },
        0xEB => {
            crate::cb_function::set(cpu, 5, RegisterName::E);
            8
        },
        0xEC => {
            crate::cb_function::set(cpu, 5, RegisterName::H);
            8
        },
        0xED => {
            crate::cb_function::set(cpu, 5, RegisterName::L);
            8
        },
        0xEE => {
            crate::cb_function::set(cpu, 5, RegisterName::HL);
            12
        },
        0xEF => {
            crate::cb_function::set(cpu, 5, RegisterName::A);
            8
        },
        0xF0 => {
            crate::cb_function::set(cpu, 6, RegisterName::B);
            8
        },
        0xF1 => {
            crate::cb_function::set(cpu, 6, RegisterName::C);
            8
        },
        0xF2 => {
            crate::cb_function::set(cpu, 6, RegisterName::D);
            8
        },
        0xF3 => {
            crate::cb_function::set(cpu, 6, RegisterName::E);
            8
        },
        0xF4 => {
            crate::cb_function::set(cpu, 6, RegisterName::H);
            8
        },
        0xF5 => {
            crate::cb_function::set(cpu, 6, RegisterName::L);
            8
        },
        0xF6 => {
            crate::cb_function::set(cpu, 6, RegisterName::HL);
            12
        },
        0xF7 => {
            crate::cb_function::set(cpu, 6, RegisterName::A);
            8
        },
        0xF8 => {
            crate::cb_function::set(cpu, 7, RegisterName::B);
            8
        },
        0xF9 => {
            crate::cb_function::set(cpu, 7, RegisterName::C);
            8
        },
        0xFA => {
            crate::cb_function::set(cpu, 7, RegisterName::D);
            8
        },
        0xFB => {
            crate::cb_function::set(cpu, 7, RegisterName::E);
            8
        },
        0xFC => {
            crate::cb_function::set(cpu, 7, RegisterName::H);
            8
        },
        0xFD => {
            crate::cb_function::set(cpu, 7, RegisterName::L);
            8
        },
        0xFE => {
            crate::cb_function::set(cpu, 7, RegisterName::HL);
            12
        },
        0xFF => {
            crate::cb_function::set(cpu, 7, RegisterName::A);
            8
        },
        _ => 8,
    }
}

/// Executes one prefixed instruction: dispatches the opcode to its
/// helper and returns the machine cycles it took.
pub fn execute_cb_opcode(cpu: &mut CPU, opcode: u8) -> (r: u8)
    requires
        old(cpu).wf(),
    ensures
        final(cpu).wf(),
        8 <= r <= 12,
        spec_cb_instruction_rel(*old(cpu), *final(cpu), opcode, r),
{
    if opcode < 0x40 {
        execute_cb_rotates(cpu, opcode)
    } else if opcode < 0x80 {
        execute_cb_bit(cpu, opcode)
    } else if opcode < 0xC0 {
        execute_cb_res(cpu, opcode)
    } else {
        execute_cb_set(cpu, opcode)
    }
}

} // verus!
