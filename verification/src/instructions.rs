//! The primary opcode dispatcher: one match arm per documented opcode,
//! each calling its helper with the register names and base cycle cost
//! the opcode encodes; taken branches report their extra cost through
//! the helper's return value.

use vstd::prelude::*;
use crate::cpu::CPU;
use crate::cpu::spec_opcode_defined;
use crate::function::add_rr;
use crate::function::add_rm;
use crate::function::add_rv;
use crate::function::adc_rr;
use crate::function::adc_rm;
use crate::function::adc_rv;
use crate::function::sub_rr;
use crate::function::sub_rm;
use crate::function::sub_rv;
use crate::function::sbc_rr;
use crate::function::sbc_rm;
use crate::function::sbc_rv;
use crate::function::and_rr;
use crate::function::and_rm;
use crate::function::and_rv;
use crate::function::xor_rr;
use crate::function::xor_rm;
use crate::function::xor_rv;
use crate::function::or_rr;
use crate::function::or_rm;
use crate::function::or_rv;
use crate::function::cp_rr;
use crate::function::cp_rm;
use crate::function::cp_rv;
use crate::function::ld_rr;
use crate::function::ld_mr;
use crate::function::ld_rm;
use crate::function::ld_ru16;
use crate::function::ld_ru8;
use crate::function::ld_m_u8;
use crate::function::ld_u16_sp;
use crate::function::ld_u16_a;
use crate::function::ld_mvr;
use crate::function::ld_rmv;
use crate::function::ld_ff00_u8_a;
use crate::function::ld_a_ff00_plus_u8;
use crate::function::ld_ff00_c_a;
use crate::function::ld_a_ff00_c;
use crate::function::ld_hl_spi8;
use crate::function::add_sp_i8;
use crate::function::inc_r;
use crate::function::inc_m;
use crate::function::dec_r;
use crate::function::dec_m;
use crate::function::rlca;
use crate::function::rla;
use crate::function::rra;
use crate::function::rrca;
use crate::function::daa;
use crate::function::cpl;
use crate::function::scf;
use crate::function::ccf;
use crate::function::jp;
use crate::function::jp_if;
use crate::function::jp_r;
use crate::function::jr;
use crate::function::jr_if;
use crate::function::call;
use crate::function::call_if;
use crate::function::ret;
use crate::function::ret_if;
use crate::function::reti;
use crate::function::rst;
use crate::function::pop_r;
use crate::function::push_r;
use crate::function::di;
use crate::function::ei;
use crate::function::halt;
use crate::function::Direction;
use crate::function::adc_rm_rel;
use crate::function::adc_rr_rel;
use crate::function::adc_rv_rel;
use crate::function::add_rm_rel;
use crate::function::add_rr_rel;
use crate::function::add_rv_rel;
use crate::function::add_sp_i8_rel;
use crate::function::and_rm_rel;
use crate::function::and_rr_rel;
use crate::function::and_rv_rel;
use crate::function::call_if_rel;
use crate::function::call_rel;
use crate::function::ccf_rel;
use crate::function::cp_rm_rel;
use crate::function::cp_rr_rel;
use crate::function::cp_rv_rel;
use crate::function::cpl_rel;
use crate::function::daa_rel;
use crate::function::dec_m_rel;
use crate::function::dec_r_rel;
use crate::function::di_rel;
use crate::function::ei_rel;
use crate::function::halt_rel;
use crate::function::inc_m_rel;
use crate::function::inc_r_rel;
use crate::function::jp_if_rel;
use crate::function::jp_r_rel;
use crate::function::jp_rel;
use crate::function::jr_if_rel;
use crate::function::jr_rel;
use crate::function::ld_a_ff00_c_rel;
use crate::function::ld_a_ff00_plus_u8_rel;
use crate::function::ld_ff00_c_a_rel;
use crate::function::ld_ff00_u8_a_rel;
use crate::function::ld_hl_spi8_rel;
use crate::function::ld_m_u8_rel;
use crate::function::ld_mr_rel;
use crate::function::ld_mvr_rel;
use crate::function::ld_rm_rel;
use crate::function::ld_rmv_rel;
use crate::function::ld_rr_rel;
use crate::function::ld_ru16_rel;
use crate::function::ld_ru8_rel;
use crate::function::ld_u16_sp_rel;
use crate::function::or_rm_rel;
use crate::function::or_rr_rel;
use crate::function::or_rv_rel;
use crate::function::pop_r_rel;
use crate::function::push_r_rel;
use crate::function::ret_if_rel;
use crate::function::ret_rel;
use crate::function::reti_rel;
use crate::function::rla_rel;
use crate::function::rlca_rel;
use crate::function::rra_rel;
use crate::function::rrca_rel;
use crate::function::rst_rel;
use crate::function::sbc_rm_rel;
use crate::function::sbc_rr_rel;
use crate::function::sbc_rv_rel;
use crate::function::scf_rel;
use crate::function::sub_rm_rel;
use crate::function::sub_rr_rel;
use crate::function::sub_rv_rel;
use crate::function::xor_rm_rel;
use crate::function::xor_rr_rel;
use crate::function::xor_rv_rel;
use crate::registers::Flag;
use crate::registers::RegisterName;

verus! {

/// What executing one unprefixed instruction does, opcode by opcode:
/// each arm applies the relation of the helper the opcode selects, with
/// the register names and cycle cost it encodes; `r` is the reported
/// machine-cycle count. Opcode bytes the decoder rejects relate nothing.
pub open spec fn spec_instruction_rel(pre: CPU, post: CPU, opcode: u8, r: u8) -> bool {
    match opcode {
        0x00 => post == pre && r == 4,
        0x01 => ld_ru16_rel(pre, post, RegisterName::BC, 12, r),
        0x02 => ld_mr_rel(pre, post, RegisterName::BC, RegisterName::A, Direction::Stay, 8, r),
        0x03 => inc_r_rel(pre, post, RegisterName::BC, 8, r),
        0x04 => inc_r_rel(pre, post, RegisterName::B, 4, r),
        0x05 => dec_r_rel(pre, post, RegisterName::B, 4, r),
        0x06 => ld_ru8_rel(pre, post, RegisterName::B, 8, r),
        0x07 => rlca_rel(pre, post, 4, r),
        0x08 => ld_u16_sp_rel(pre, post, 20, r),
        0x09 => add_rr_rel(pre, post, RegisterName::HL, RegisterName::BC, 8, r),
        0x0A => ld_rm_rel(pre, post, RegisterName::A, RegisterName::BC, Direction::Stay, 8, r),
        0x0B => dec_r_rel(pre, post, RegisterName::BC, 8, r),
        0x0C => inc_r_rel(pre, post, RegisterName::C, 4, r),
        0x0D => dec_r_rel(pre, post, RegisterName::C, 4, r),
        0x0E => ld_ru8_rel(pre, post, RegisterName::C, 8, r),
        0x0F => rrca_rel(pre, post, 4, r),
        0x11 => ld_ru16_rel(pre, post, RegisterName::DE, 12, r),
        0x12 => ld_mr_rel(pre, post, RegisterName::DE, RegisterName::A, Direction::Stay, 8, r),
        0x13 => inc_r_rel(pre, post, RegisterName::DE, 8, r),
        0x14 => inc_r_rel(pre, post, RegisterName::D, 4, r),
        0x15 => dec_r_rel(pre, post, RegisterName::D, 4, r),
        0x16 => ld_ru8_rel(pre, post, RegisterName::D, 8, r),
        0x17 => rla_rel(pre, post, 4, r),
        0x18 => jr_rel(pre, post, 12, r),
        0x19 => add_rr_rel(pre, post, RegisterName::HL, RegisterName::DE, 8, r),
        0x1A => ld_rm_rel(pre, post, RegisterName::A, RegisterName::DE, Direction::Stay, 8, r),
        0x1B => dec_r_rel(pre, post, RegisterName::DE, 8, r),
        0x1C => inc_r_rel(pre, post, RegisterName::E, 4, r),
        0x1D => dec_r_rel(pre, post, RegisterName::E, 4, r),
        0x1E => ld_ru8_rel(pre, post, RegisterName::E, 8, r),
        0x1F => rra_rel(pre, post, 4, r),
        0x20 => jr_if_rel(pre, post, Flag::Z, false, 8, r),
        0x21 => ld_ru16_rel(pre, post, RegisterName::HL, 12, r),
        0x22 => ld_mr_rel(pre, post, RegisterName::HL, RegisterName::A, Direction::Increment, 8, r),
        0x23 => inc_r_rel(pre, post, RegisterName::HL, 8, r),
        0x24 => inc_r_rel(pre, post, RegisterName::H, 4, r),
        0x25 => dec_r_rel(pre, post, RegisterName::H, 4, r),
        0x26 => ld_ru8_rel(pre, post, RegisterName::H, 8, r),
        0x27 => daa_rel(pre, post, 4, r),
        0x28 => jr_if_rel(pre, post, Flag::Z, true, 8, r),
        0x29 => add_rr_rel(pre, post, RegisterName::HL, RegisterName::HL, 8, r),
        0x2A => ld_rm_rel(pre, post, RegisterName::A, RegisterName::HL, Direction::Increment, 8, r),
        0x2B => dec_r_rel(pre, post, RegisterName::HL, 8, r),
        0x2C => inc_r_rel(pre, post, RegisterName::L, 4, r),
        0x2D => dec_r_rel(pre, post, RegisterName::L, 4, r),
        0x2E => ld_ru8_rel(pre, post, RegisterName::L, 8, r),
        0x2F => cpl_rel(pre, post, 4, r),
        0x30 => jr_if_rel(pre, post, Flag::C, false, 8, r),
        0x31 => ld_ru16_rel(pre, post, RegisterName::SP, 12, r),
        0x32 => ld_mr_rel(pre, post, RegisterName::HL, RegisterName::A, Direction::Decrement, 8, r),
        0x33 => inc_r_rel(pre, post, RegisterName::SP, 8, r),
        0x34 => inc_m_rel(pre, post, RegisterName::HL, 12, r),
        0x35 => dec_m_rel(pre, post, RegisterName::HL, 12, r),
        0x36 => ld_m_u8_rel(pre, post, RegisterName::HL, 12, r),
        0x37 => scf_rel(pre, post, 4, r),
        0x38 => jr_if_rel(pre, post, Flag::C, true, 8, r),
        0x39 => add_rr_rel(pre, post, RegisterName::HL, RegisterName::SP, 8, r),
        0x3A => ld_rm_rel(pre, post, RegisterName::A, RegisterName::HL, Direction::Decrement, 8, r),
        0x3B => dec_r_rel(pre, post, RegisterName::SP, 8, r),
        0x3C => inc_r_rel(pre, post, RegisterName::A, 4, r),
        0x3D => dec_r_rel(pre, post, RegisterName::A, 4, r),
        0x3E => ld_ru8_rel(pre, post, RegisterName::A, 8, r),
        0x3F => ccf_rel(pre, post, 4, r),
        0x40 => ld_rr_rel(pre, post, RegisterName::B, RegisterName::B, 4, r),
        0x41 => ld_rr_rel(pre, post, RegisterName::B, RegisterName::C, 4, r),
        0x42 => ld_rr_rel(pre, post, RegisterName::B, RegisterName::D, 4, r),
        0x43 => ld_rr_rel(pre, post, RegisterName::B, RegisterName::E, 4, r),
        0x44 => ld_rr_rel(pre, post, RegisterName::B, RegisterName::H, 4, r),
        0x45 => ld_rr_rel(pre, post, RegisterName::B, RegisterName::L, 4, r),
        0x46 => ld_rm_rel(pre, post, RegisterName::B, RegisterName::HL, Direction::Stay, 8, r),
        0x47 => ld_rr_rel(pre, post, RegisterName::B, RegisterName::A, 4, r),
        0x48 => ld_rr_rel(pre, post, RegisterName::C, RegisterName::B, 4, r),
        0x49 => ld_rr_rel(pre, post, RegisterName::C, RegisterName::C, 4, r),
        0x4A => ld_rr_rel(pre, post, RegisterName::C, RegisterName::D, 4, r),
        0x4B => ld_rr_rel(pre, post, RegisterName::C, RegisterName::E, 4, r),
        0x4C => ld_rr_rel(pre, post, RegisterName::C, RegisterName::H, 4, r),
        0x4D => ld_rr_rel(pre, post, RegisterName::C, RegisterName::L, 4, r),
        0x4E => ld_rm_rel(pre, post, RegisterName::C, RegisterName::HL, Direction::Stay, 8, r),
        0x4F => ld_rr_rel(pre, post, RegisterName::C, RegisterName::A, 4, r),
        0x50 => ld_rr_rel(pre, post, RegisterName::D, RegisterName::B, 4, r),
        0x51 => ld_rr_rel(pre, post, RegisterName::D, RegisterName::C, 4, r),
        0x52 => ld_rr_rel(pre, post, RegisterName::D, RegisterName::D, 4, r),
        0x53 => ld_rr_rel(pre, post, RegisterName::D, RegisterName::E, 4, r),
        0x54 => ld_rr_rel(pre, post, RegisterName::D, RegisterName::H, 4, r),
        0x55 => ld_rr_rel(pre, post, RegisterName::D, RegisterName::L, 4, r),
        0x56 => ld_rm_rel(pre, post, RegisterName::D, RegisterName::HL, Direction::Stay, 8, r),
        0x57 => ld_rr_rel(pre, post, RegisterName::D, RegisterName::A, 4, r),
        0x58 => ld_rr_rel(pre, post, RegisterName::E, RegisterName::B, 4, r),
        0x59 => ld_rr_rel(pre, post, RegisterName::E, RegisterName::C, 4, r),
        0x5A => ld_rr_rel(pre, post, RegisterName::E, RegisterName::D, 4, r),
        0x5B => ld_rr_rel(pre, post, RegisterName::E, RegisterName::E, 4, r),
        0x5C => ld_rr_rel(pre, post, RegisterName::E, RegisterName::H, 4, r),
        0x5D => ld_rr_rel(pre, post, RegisterName::E, RegisterName::L, 4, r),
        0x5E => ld_rm_rel(pre, post, RegisterName::E, RegisterName::HL, Direction::Stay, 8, r),
        0x5F => ld_rr_rel(pre, post, RegisterName::E, RegisterName::A, 4, r),
        0x60 => ld_rr_rel(pre, post, RegisterName::H, RegisterName::B, 4, r),
        0x61 => ld_rr_rel(pre, post, RegisterName::H, RegisterName::C, 4, r),
        0x62 => ld_rr_rel(pre, post, RegisterName::H, RegisterName::D, 4, r),
        0x63 => ld_rr_rel(pre, post, RegisterName::H, RegisterName::E, 4, r),
        0x64 => ld_rr_rel(pre, post, RegisterName::H, RegisterName::H, 4, r),
        0x65 => ld_rr_rel(pre, post, RegisterName::H, RegisterName::L, 4, r),
        0x66 => ld_rm_rel(pre, post, RegisterName::H, RegisterName::HL, Direction::Stay, 8, r),
        0x67 => ld_rr_rel(pre, post, RegisterName::H, RegisterName::A, 4, r),
        0x68 => ld_rr_rel(pre, post, RegisterName::L, RegisterName::B, 4, r),
        0x69 => ld_rr_rel(pre, post, RegisterName::L, RegisterName::C, 4, r),
        0x6A => ld_rr_rel(pre, post, RegisterName::L, RegisterName::D, 4, r),
        0x6B => ld_rr_rel(pre, post, RegisterName::L, RegisterName::E, 4, r),
        0x6C => ld_rr_rel(pre, post, RegisterName::L, RegisterName::H, 4, r),
        0x6D => ld_rr_rel(pre, post, RegisterName::L, RegisterName::L, 4, r),
        0x6E => ld_rm_rel(pre, post, RegisterName::L, RegisterName::HL, Direction::Stay, 8, r),
        0x6F => ld_rr_rel(pre, post, RegisterName::L, RegisterName::A, 4, r),
        0x70 => ld_mr_rel(pre, post, RegisterName::HL, RegisterName::B, Direction::Stay, 8, r),
        0x71 => ld_mr_rel(pre, post, RegisterName::HL, RegisterName::C, Direction::Stay, 8, r),
        0x72 => ld_mr_rel(pre, post, RegisterName::HL, RegisterName::D, Direction::Stay, 8, r),
        0x73 => ld_mr_rel(pre, post, RegisterName::HL, RegisterName::E, Direction::Stay, 8, r),
        0x74 => ld_mr_rel(pre, post, RegisterName::HL, RegisterName::H, Direction::Stay, 8, r),
        0x75 => ld_mr_rel(pre, post, RegisterName::HL, RegisterName::L, Direction::Stay, 8, r),
        0x76 => halt_rel(pre, post, 4, r),
        0x77 => ld_mr_rel(pre, post, RegisterName::HL, RegisterName::A, Direction::Stay, 8, r),
        0x78 => ld_rr_rel(pre, post, RegisterName::A, RegisterName::B, 4, r),
        0x79 => ld_rr_rel(pre, post, RegisterName::A, RegisterName::C, 4, r),
        0x7A => ld_rr_rel(pre, post, RegisterName::A, RegisterName::D, 4, r),
        0x7B => ld_rr_rel(pre, post, RegisterName::A, RegisterName::E, 4, r),
        0x7C => ld_rr_rel(pre, post, RegisterName::A, RegisterName::H, 4, r),
        0x7D => ld_rr_rel(pre, post, RegisterName::A, RegisterName::L, 4, r),
        0x7E => ld_rm_rel(pre, post, RegisterName::A, RegisterName::HL, Direction::Stay, 8, r),
        0x7F => ld_rr_rel(pre, post, RegisterName::A, RegisterName::A, 4, r),
        0x80 => add_rr_rel(pre, post, RegisterName::A, RegisterName::B , 4, r),
        0x81 => add_rr_rel(pre, post, RegisterName::A, RegisterName::C , 4, r),
        0x82 => add_rr_rel(pre, post, RegisterName::A, RegisterName::D , 4, r),
        0x83 => add_rr_rel(pre, post, RegisterName::A, RegisterName::E , 4, r),
        0x84 => add_rr_rel(pre, post, RegisterName::A, RegisterName::H , 4, r),
        0x85 => add_rr_rel(pre, post, RegisterName::A, RegisterName::L , 4, r),
        0x86 => add_rm_rel(pre, post, RegisterName::A, RegisterName::HL , 8, r),
        0x87 => add_rr_rel(pre, post, RegisterName::A, RegisterName::A , 4, r),
        0x88 => adc_rr_rel(pre, post, RegisterName::A, RegisterName::B , 4, r),
        0x89 => adc_rr_rel(pre, post, RegisterName::A, RegisterName::C , 4, r),
        0x8A => adc_rr_rel(pre, post, RegisterName::A, RegisterName::D , 4, r),
        0x8B => adc_rr_rel(pre, post, RegisterName::A, RegisterName::E , 4, r),
        0x8C => adc_rr_rel(pre, post, RegisterName::A, RegisterName::H , 4, r),
        0x8D => adc_rr_rel(pre, post, RegisterName::A, RegisterName::L , 4, r),
        0x8E => adc_rm_rel(pre, post, RegisterName::A, RegisterName::HL , 8, r),
        0x8F => adc_rr_rel(pre, post, RegisterName::A, RegisterName::A , 4, r),
        0x90 => sub_rr_rel(pre, post, RegisterName::A, RegisterName::B , 4, r),
        0x91 => sub_rr_rel(pre, post, RegisterName::A, RegisterName::C , 4, r),
        0x92 => sub_rr_rel(pre, post, RegisterName::A, RegisterName::D , 4, r),
        0x93 => sub_rr_rel(pre, post, RegisterName::A, RegisterName::E , 4, r),
        0x94 => sub_rr_rel(pre, post, RegisterName::A, RegisterName::H , 4, r),
        0x95 => sub_rr_rel(pre, post, RegisterName::A, RegisterName::L , 4, r),
        0x96 => sub_rm_rel(pre, post, RegisterName::A, RegisterName::HL , 8, r),
        0x97 => sub_rr_rel(pre, post, RegisterName::A, RegisterName::A , 4, r),
        0x98 => sbc_rr_rel(pre, post, RegisterName::A, RegisterName::B , 4, r),
        0x99 => sbc_rr_rel(pre, post, RegisterName::A, RegisterName::C , 4, r),
        0x9A => sbc_rr_rel(pre, post, RegisterName::A, RegisterName::D , 4, r),
        0x9B => sbc_rr_rel(pre, post, RegisterName::A, RegisterName::E , 4, r),
        0x9C => sbc_rr_rel(pre, post, RegisterName::A, RegisterName::H , 4, r),
        0x9D => sbc_rr_rel(pre, post, RegisterName::A, RegisterName::L , 4, r),
        0x9E => sbc_rm_rel(pre, post, RegisterName::A, RegisterName::HL , 8, r),
        0x9F => sbc_rr_rel(pre, post, RegisterName::A, RegisterName::A , 4, r),
        0xA0 => and_rr_rel(pre, post, RegisterName::A, RegisterName::B , 4, r),
        0xA1 => and_rr_rel(pre, post, RegisterName::A, RegisterName::C , 4, r),
        0xA2 => and_rr_rel(pre, post, RegisterName::A, RegisterName::D , 4, r),
        0xA3 => and_rr_rel(pre, post, RegisterName::A, RegisterName::E , 4, r),
        0xA4 => and_rr_rel(pre, post, RegisterName::A, RegisterName::H , 4, r),
        0xA5 => and_rr_rel(pre, post, RegisterName::A, RegisterName::L , 4, r),
        0xA6 => and_rm_rel(pre, post, RegisterName::A, RegisterName::HL , 8, r),
        0xA7 => and_rr_rel(pre, post, RegisterName::A, RegisterName::A , 4, r),
        0xA8 => xor_rr_rel(pre, post, RegisterName::A, RegisterName::B , 4, r),
        0xA9 => xor_rr_rel(pre, post, RegisterName::A, RegisterName::C , 4, r),
        0xAA => xor_rr_rel(pre, post, RegisterName::A, RegisterName::D , 4, r),
        0xAB => xor_rr_rel(pre, post, RegisterName::A, RegisterName::E , 4, r),
        0xAC => xor_rr_rel(pre, post, RegisterName::A, RegisterName::H , 4, r),
        0xAD => xor_rr_rel(pre, post, RegisterName::A, RegisterName::L , 4, r),
        0xAE => xor_rm_rel(pre, post, RegisterName::A, RegisterName::HL , 8, r),
        0xAF => xor_rr_rel(pre, post, RegisterName::A, RegisterName::A , 4, r),
        0xB0 => or_rr_rel(pre, post, RegisterName::A, RegisterName::B , 4, r),
        0xB1 => or_rr_rel(pre, post, RegisterName::A, RegisterName::C , 4, r),
        0xB2 => or_rr_rel(pre, post, RegisterName::A, RegisterName::D , 4, r),
        0xB3 => or_rr_rel(pre, post, RegisterName::A, RegisterName::E , 4, r),
        0xB4 => or_rr_rel(pre, post, RegisterName::A, RegisterName::H , 4, r),
        0xB5 => or_rr_rel(pre, post, RegisterName::A, RegisterName::L , 4, r),
        0xB6 => or_rm_rel(pre, post, RegisterName::A, RegisterName::HL , 8, r),
        0xB7 => or_rr_rel(pre, post, RegisterName::A, RegisterName::A , 4, r),
        0xB8 => cp_rr_rel(pre, post, RegisterName::A, RegisterName::B , 4, r),
        0xB9 => cp_rr_rel(pre, post, RegisterName::A, RegisterName::C , 4, r),
        0xBA => cp_rr_rel(pre, post, RegisterName::A, RegisterName::D , 4, r),
        0xBB => cp_rr_rel(pre, post, RegisterName::A, RegisterName::E , 4, r),
        0xBC => cp_rr_rel(pre, post, RegisterName::A, RegisterName::H , 4, r),
        0xBD => cp_rr_rel(pre, post, RegisterName::A, RegisterName::L , 4, r),
        0xBE => cp_rm_rel(pre, post, RegisterName::A, RegisterName::HL , 8, r),
        0xBF => cp_rr_rel(pre, post, RegisterName::A, RegisterName::A , 4, r),
        0xC0 => ret_if_rel(pre, post, Flag::Z, false, 8, r),
        0xC1 => pop_r_rel(pre, post, RegisterName::BC, 12, r),
        0xC2 => jp_if_rel(pre, post, Flag::Z, false, 12, r),
        0xC3 => jp_rel(pre, post, 16, r),
        0xC4 => call_if_rel(pre, post, Flag::Z, false, 12, r),
        0xC5 => push_r_rel(pre, post, RegisterName::BC, 16, r),
        0xC6 => add_rv_rel(pre, post, RegisterName::A, 8, r),
        0xC7 => rst_rel(pre, post, 0x0000, 16, r),
        0xC8 => ret_if_rel(pre, post, Flag::Z, true, 8, r),
        0xC9 => ret_rel(pre, post, 16, r),
        0xCA => jp_if_rel(pre, post, Flag::Z, true, 12, r),
        0xCC => call_if_rel(pre, post, Flag::Z, true, 12, r),
        0xCD => call_rel(pre, post, 24, r),
        0xCE => adc_rv_rel(pre, post, RegisterName::A, 8, r),
        0xCF => rst_rel(pre, post, 0x0008, 16, r),
        0xD0 => ret_if_rel(pre, post, Flag::C, false,8, r),
        0xD1 => pop_r_rel(pre, post, RegisterName::DE,12, r),
        0xD2 => jp_if_rel(pre, post, Flag::C, false,12, r),
        0xD4 => call_if_rel(pre, post, Flag::C, false,12, r),
        0xD5 => push_r_rel(pre, post, RegisterName::DE,16, r),
        0xD6 => sub_rv_rel(pre, post, RegisterName::A,8, r),
        0xD7 => rst_rel(pre, post, 0x0010,16, r),
        0xD8 => ret_if_rel(pre, post, Flag::C, true,8, r),
        0xD9 => reti_rel(pre, post, 16, r),
        0xDA => jp_if_rel(pre, post, Flag::C, true, 12, r),
        0xDC => call_if_rel(pre, post, Flag::C, true, 12, r),
        0xDE => sbc_rv_rel(pre, post, RegisterName::A, 8, r),
        0xDF => rst_rel(pre, post, 0x0018, 16, r),
        0xE0 => ld_ff00_u8_a_rel(pre, post, 12, r),
        0xE1 => pop_r_rel(pre, post, RegisterName::HL, 12, r),
        0xE2 => ld_ff00_c_a_rel(pre, post, 8, r),
        0xE5 => push_r_rel(pre, post, RegisterName::HL, 16, r),
        0xE6 => and_rv_rel(pre, post, RegisterName::A,8, r),
        0xE7 => rst_rel(pre, post, 0x0020, 16, r),
        0xE8 => add_sp_i8_rel(pre, post, 16, r),
        0xE9 => jp_r_rel(pre, post, RegisterName::HL, 4, r),
        0xEA => ld_mvr_rel(pre, post, RegisterName::A, 16, r),
        0xEE => xor_rv_rel(pre, post, RegisterName::A, 8, r),
        0xEF => rst_rel(pre, post, 0x0028, 16, r),
        0xF0 => ld_a_ff00_plus_u8_rel(pre, post, 12, r),
        0xF1 => pop_r_rel(pre, post, RegisterName::AF, 12, r),
        0xF2 => ld_a_ff00_c_rel(pre, post, 8, r),
        0xF3 => di_rel(pre, post, 4, r),
        0xF5 => push_r_rel(pre, post, RegisterName::AF, 16, r),
        0xF6 => or_rv_rel(pre, post, RegisterName::A, 8, r),
        0xF7 => rst_rel(pre, post, 0x0030, 16, r),
        0xF8 => ld_hl_spi8_rel(pre, post, 12, r),
        0xF9 => ld_rr_rel(pre, post, RegisterName::SP, RegisterName::HL, 8, r),
        0xFA => ld_rmv_rel(pre, post, RegisterName::A, 16, r),
        0xFB => ei_rel(pre, post, 4, r),
        0xFE => cp_rv_rel(pre, post, RegisterName::A, 8, r),
        0xFF => rst_rel(pre, post, 0x0038, 16, r),
        _ => true,
    }
}



/// Executes one unprefixed instruction below 0x40: loads of immediates,
/// 16-bit arithmetic, rotates of A and the other leading operations.
fn execute_opcode_low(cpu: &mut CPU, opcode: u8) -> (r: u8)
    requires
        old(cpu).wf(),
        spec_opcode_defined(opcode),
        opcode != 0xCB,
        0x00 <= opcode <= 0x3F,
    ensures
        final(cpu).wf(),
        4 <= r <= 24,
        spec_instruction_rel(*old(cpu), *final(cpu), opcode, r),
{
    match opcode {
        0x00 => 4,
        0x01 => ld_ru16(cpu, RegisterName::BC, 12),
        0x02 => ld_mr(cpu, RegisterName::BC, RegisterName::A, Direction::Stay, 8),
        0x03 => inc_r(cpu, RegisterName::BC, 8),
        0x04 => inc_r(cpu, RegisterName::B, 4),
        0x05 => dec_r(cpu, RegisterName::B, 4),
        0x06 => ld_ru8(cpu, RegisterName::B, 8),
        0x07 => rlca(cpu, 4),
        0x08 => ld_u16_sp(cpu, 20),
        0x09 => add_rr(cpu, RegisterName::HL, RegisterName::BC, 8),
        0x0A => ld_rm(cpu, RegisterName::A, RegisterName::BC, Direction::Stay, 8),
        0x0B => dec_r(cpu, RegisterName::BC, 8),
        0x0C => inc_r(cpu, RegisterName::C, 4),
        0x0D => dec_r(cpu, RegisterName::C, 4),
        0x0E => ld_ru8(cpu, RegisterName::C, 8),
        0x0F => rrca(cpu, 4),
        0x11 => ld_ru16(cpu, RegisterName::DE, 12),
        0x12 => ld_mr(cpu, RegisterName::DE, RegisterName::A, Direction::Stay, 8),
        0x13 => inc_r(cpu, RegisterName::DE, 8),
        0x14 => inc_r(cpu, RegisterName::D, 4),
        0x15 => dec_r(cpu, RegisterName::D, 4),
        0x16 => ld_ru8(cpu, RegisterName::D, 8),
        0x17 => rla(cpu, 4),
        0x18 => jr(cpu, 12),
        0x19 => add_rr(cpu, RegisterName::HL, RegisterName::DE, 8),
        0x1A => ld_rm(cpu, RegisterName::A, RegisterName::DE, Direction::Stay, 8),
        0x1B => dec_r(cpu, RegisterName::DE, 8),
        0x1C => inc_r(cpu, RegisterName::E, 4),
        0x1D => dec_r(cpu, RegisterName::E, 4),
        0x1E => ld_ru8(cpu, RegisterName::E, 8),
        0x1F => rra(cpu, 4),
        0x20 => jr_if(cpu, Flag::Z, false, 8),
        0x21 => ld_ru16(cpu, RegisterName::HL, 12),
        0x22 => ld_mr(cpu, RegisterName::HL, RegisterName::A, Direction::Increment, 8),
        0x23 => inc_r(cpu, RegisterName::HL, 8),
        0x24 => inc_r(cpu, RegisterName::H, 4),
        0x25 => dec_r(cpu, RegisterName::H, 4),
        0x26 => ld_ru8(cpu, RegisterName::H, 8),
        0x27 => daa(cpu, 4),
        0x28 => jr_if(cpu, Flag::Z, true, 8),
        0x29 => add_rr(cpu, RegisterName::HL, RegisterName::HL, 8),
        0x2A => ld_rm(cpu, RegisterName::A, RegisterName::HL, Direction::Increment, 8),
        0x2B => dec_r(cpu, RegisterName::HL, 8),
        0x2C => inc_r(cpu, RegisterName::L, 4),
        0x2D => dec_r(cpu, RegisterName::L, 4),
        0x2E => ld_ru8(cpu, RegisterName::L, 8),
        0x2F => cpl(cpu, 4),
        0x30 => jr_if(cpu, Flag::C, false, 8),
        0x31 => ld_ru16(cpu, RegisterName::SP, 12),
        0x32 => ld_mr(cpu, RegisterName::HL, RegisterName::A, Direction::Decrement, 8),
        0x33 => inc_r(cpu, RegisterName::SP, 8),
        0x34 => inc_m(cpu, RegisterName::HL, 12),
        0x35 => dec_m(cpu, RegisterName::HL, 12),
        0x36 => ld_m_u8(cpu, RegisterName::HL, 12),
        0x37 => scf(cpu, 4),
        0x38 => jr_if(cpu, Flag::C, true, 8),
        0x39 => add_rr(cpu, RegisterName::HL, RegisterName::SP, 8),
        0x3A => ld_rm(cpu, RegisterName::A, RegisterName::HL, Direction::Decrement, 8),
        0x3B => dec_r(cpu, RegisterName::SP, 8),
        0x3C => inc_r(cpu, RegisterName::A, 4),
        0x3D => dec_r(cpu, RegisterName::A, 4),
        0x3E => ld_ru8(cpu, RegisterName::A, 8),
        0x3F => ccf(cpu, 4),
        _ => 4,
    }
}

/// Executes one register-to-register load instruction (0x40 to 0x7F),
/// HALT included.
fn execute_opcode_loads(cpu: &mut CPU, opcode: u8) -> (r: u8)
    requires
        old(cpu).wf(),
        spec_opcode_defined(opcode),
        opcode != 0xCB,
        0x40 <= opcode <= 0x7F,
    ensures
        final(cpu).wf(),
        4 <= r <= 24,
        spec_instruction_rel(*old(cpu), *final(cpu), opcode, r),
{
    match opcode {
        0x40 => ld_rr(cpu, RegisterName::B, RegisterName::B, 4),
        0x41 => ld_rr(cpu, RegisterName::B, RegisterName::C, 4),
        0x42 => ld_rr(cpu, RegisterName::B, RegisterName::D, 4),
        0x43 => ld_rr(cpu, RegisterName::B, RegisterName::E, 4),
        0x44 => ld_rr(cpu, RegisterName::B, RegisterName::H, 4),
        0x45 => ld_rr(cpu, RegisterName::B, RegisterName::L, 4),
        0x46 => ld_rm(cpu, RegisterName::B, RegisterName::HL, Direction::Stay, 8),
        0x47 => ld_rr(cpu, RegisterName::B, RegisterName::A, 4),
        0x48 => ld_rr(cpu, RegisterName::C, RegisterName::B, 4),
        0x49 => ld_rr(cpu, RegisterName::C, RegisterName::C, 4),
        0x4A => ld_rr(cpu, RegisterName::C, RegisterName::D, 4),
        0x4B => ld_rr(cpu, RegisterName::C, RegisterName::E, 4),
        0x4C => ld_rr(cpu, RegisterName::C, RegisterName::H, 4),
        0x4D => ld_rr(cpu, RegisterName::C, RegisterName::L, 4),
        0x4E => ld_rm(cpu, RegisterName::C, RegisterName::HL, Direction::Stay, 8),
        0x4F => ld_rr(cpu, RegisterName::C, RegisterName::A, 4),
        0x50 => ld_rr(cpu, RegisterName::D, RegisterName::B, 4),
        0x51 => ld_rr(cpu, RegisterName::D, RegisterName::C, 4),
        0x52 => ld_rr(cpu, RegisterName::D, RegisterName::D, 4),
        0x53 => ld_rr(cpu, RegisterName::D, RegisterName::E, 4),
        0x54 => ld_rr(cpu, RegisterName::D, RegisterName::H, 4),
        0x55 => ld_rr(cpu, RegisterName::D, RegisterName::L, 4),
        0x56 => ld_rm(cpu, RegisterName::D, RegisterName::HL, Direction::Stay, 8),
        0x57 => ld_rr(cpu, RegisterName::D, RegisterName::A, 4),
        0x58 => ld_rr(cpu, RegisterName::E, RegisterName::B, 4),
        0x59 => ld_rr(cpu, RegisterName::E, RegisterName::C, 4),
        0x5A => ld_rr(cpu, RegisterName::E, RegisterName::D, 4),
        0x5B => ld_rr(cpu, RegisterName::E, RegisterName::E, 4),
        0x5C => ld_rr(cpu, RegisterName::E, RegisterName::H, 4),
        0x5D => ld_rr(cpu, RegisterName::E, RegisterName::L, 4),
        0x5E => ld_rm(cpu, RegisterName::E, RegisterName::HL, Direction::Stay, 8),
        0x5F => ld_rr(cpu, RegisterName::E, RegisterName::A, 4),
        0x60 => ld_rr(cpu, RegisterName::H, RegisterName::B, 4),
        0x61 => ld_rr(cpu, RegisterName::H, RegisterName::C, 4),
        0x62 => ld_rr(cpu, RegisterName::H, RegisterName::D, 4),
        0x63 => ld_rr(cpu, RegisterName::H, RegisterName::E, 4),
        0x64 => ld_rr(cpu, RegisterName::H, RegisterName::H, 4),
        0x65 => ld_rr(cpu, RegisterName::H, RegisterName::L, 4),
        0x66 => ld_rm(cpu, RegisterName::H, RegisterName::HL, Direction::Stay, 8),
        0x67 => ld_rr(cpu, RegisterName::H, RegisterName::A, 4),
        0x68 => ld_rr(cpu, RegisterName::L, RegisterName::B, 4),
        0x69 => ld_rr(cpu, RegisterName::L, RegisterName::C, 4),
        0x6A => ld_rr(cpu, RegisterName::L, RegisterName::D, 4),
        0x6B => ld_rr(cpu, RegisterName::L, RegisterName::E, 4),
        0x6C => ld_rr(cpu, RegisterName::L, RegisterName::H, 4),
        0x6D => ld_rr(cpu, RegisterName::L, RegisterName::L, 4),
        0x6E => ld_rm(cpu, RegisterName::L, RegisterName::HL, Direction::Stay, 8),
        0x6F => ld_rr(cpu, RegisterName::L, RegisterName::A, 4),
        0x70 => ld_mr(cpu, RegisterName::HL, RegisterName::B, Direction::Stay, 8),
        0x71 => ld_mr(cpu, RegisterName::HL, RegisterName::C, Direction::Stay, 8),
        0x72 => ld_mr(cpu, RegisterName::HL, RegisterName::D, Direction::Stay, 8),
        0x73 => ld_mr(cpu, RegisterName::HL, RegisterName::E, Direction::Stay, 8),
        0x74 => ld_mr(cpu, RegisterName::HL, RegisterName::H, Direction::Stay, 8),
        0x75 => ld_mr(cpu, RegisterName::HL, RegisterName::L, Direction::Stay, 8),
        0x76 => halt(cpu, 4),
        0x77 => ld_mr(cpu, RegisterName::HL, RegisterName::A, Direction::Stay, 8),
        0x78 => ld_rr(cpu, RegisterName::A, RegisterName::B, 4),
        0x79 => ld_rr(cpu, RegisterName::A, RegisterName::C, 4),
        0x7A => ld_rr(cpu, RegisterName::A, RegisterName::D, 4),
        0x7B => ld_rr(cpu, RegisterName::A, RegisterName::E, 4),
        0x7C => ld_rr(cpu, RegisterName::A, RegisterName::H, 4),
        0x7D => ld_rr(cpu, RegisterName::A, RegisterName::L, 4),
        0x7E => ld_rm(cpu, RegisterName::A, RegisterName::HL, Direction::Stay, 8),
        0x7F => ld_rr(cpu, RegisterName::A, RegisterName::A, 4),
        _ => 4,
    }
}

/// Executes one 8-bit addition or subtraction instruction (0x80 to
/// 0x9F).
fn execute_opcode_adds(cpu: &mut CPU, opcode: u8) -> (r: u8)
    requires
        old(cpu).wf(),
        spec_opcode_defined(opcode),
        0x80 <= opcode <= 0x9F,
    ensures
        final(cpu).wf(),
        4 <= r <= 24,
        spec_instruction_rel(*old(cpu), *final(cpu), opcode, r),
{
    match opcode {
        0x80 => add_rr(cpu, RegisterName::A, RegisterName::B , 4),
        0x81 => add_rr(cpu, RegisterName::A, RegisterName::C , 4),
        0x82 => add_rr(cpu, RegisterName::A, RegisterName::D , 4),
        0x83 => add_rr(cpu, RegisterName::A, RegisterName::E , 4),
        0x84 => add_rr(cpu, RegisterName::A, RegisterName::H , 4),
        0x85 => add_rr(cpu, RegisterName::A, RegisterName::L , 4),
        0x86 => add_rm(cpu, RegisterName::A, RegisterName::HL , 8),
        0x87 => add_rr(cpu, RegisterName::A, RegisterName::A , 4),
        0x88 => adc_rr(cpu, RegisterName::A, RegisterName::B , 4),
        0x89 => adc_rr(cpu, RegisterName::A, RegisterName::C , 4),
        0x8A => adc_rr(cpu, RegisterName::A, RegisterName::D , 4),
        0x8B => adc_rr(cpu, RegisterName::A, RegisterName::E , 4),
        0x8C => adc_rr(cpu, RegisterName::A, RegisterName::H , 4),
        0x8D => adc_rr(cpu, RegisterName::A, RegisterName::L , 4),
        0x8E => adc_rm(cpu, RegisterName::A, RegisterName::HL , 8),
        0x8F => adc_rr(cpu, RegisterName::A, RegisterName::A , 4),
        0x90 => sub_rr(cpu, RegisterName::A, RegisterName::B , 4),
        0x91 => sub_rr(cpu, RegisterName::A, RegisterName::C , 4),
        0x92 => sub_rr(cpu, RegisterName::A, RegisterName::D , 4),
        0x93 => sub_rr(cpu, RegisterName::A, RegisterName::E , 4),
        0x94 => sub_rr(cpu, RegisterName::A, RegisterName::H , 4),
        0x95 => sub_rr(cpu, RegisterName::A, RegisterName::L , 4),
        0x96 => sub_rm(cpu, RegisterName::A, RegisterName::HL , 8),
        0x97 => sub_rr(cpu, RegisterName::A, RegisterName::A , 4),
        0x98 => sbc_rr(cpu, RegisterName::A, RegisterName::B , 4),
        0x99 => sbc_rr(cpu, RegisterName::A, RegisterName::C , 4),
        0x9A => sbc_rr(cpu, RegisterName::A, RegisterName::D , 4),
        0x9B => sbc_rr(cpu, RegisterName::A, RegisterName::E , 4),
        0x9C => sbc_rr(cpu, RegisterName::A, RegisterName::H , 4),
        0x9D => sbc_rr(cpu, RegisterName::A, RegisterName::L , 4),
        0x9E => sbc_rm(cpu, RegisterName::A, RegisterName::HL , 8),
        0x9F => sbc_rr(cpu, RegisterName::A, RegisterName::A , 4),
        _ => 4,
    }
}

/// Executes one 8-bit logic or compare instruction (0xA0 to 0xBF).
fn execute_opcode_logic(cpu: &mut CPU, opcode: u8) -> (r: u8)
    requires
        old(cpu).wf(),
        spec_opcode_defined(opcode),
        0xA0 <= opcode <= 0xBF,
    ensures
        final(cpu).wf(),
        4 <= r <= 24,
        spec_instruction_rel(*old(cpu), *final(cpu), opcode, r),
{
    match opcode {
        0xA0 => and_rr(cpu, RegisterName::A, RegisterName::B , 4),
        0xA1 => and_rr(cpu, RegisterName::A, RegisterName::C , 4),
        0xA2 => and_rr(cpu, RegisterName::A, RegisterName::D , 4),
        0xA3 => and_rr(cpu, RegisterName::A, RegisterName::E , 4),
        0xA4 => and_rr(cpu, RegisterName::A, RegisterName::H , 4),
        0xA5 => and_rr(cpu, RegisterName::A, RegisterName::L , 4),
        0xA6 => and_rm(cpu, RegisterName::A, RegisterName::HL , 8),
        0xA7 => and_rr(cpu, RegisterName::A, RegisterName::A , 4),
        0xA8 => xor_rr(cpu, RegisterName::A, RegisterName::B , 4),
        0xA9 => xor_rr(cpu, RegisterName::A, RegisterName::C , 4),
        0xAA => xor_rr(cpu, RegisterName::A, RegisterName::D , 4),
        0xAB => xor_rr(cpu, RegisterName::A, RegisterName::E , 4),
        0xAC => xor_rr(cpu, RegisterName::A, RegisterName::H , 4),
        0xAD => xor_rr(cpu, RegisterName::A, RegisterName::L , 4),
        0xAE => xor_rm(cpu, RegisterName::A, RegisterName::HL , 8),
        0xAF => xor_rr(cpu, RegisterName::A, RegisterName::A , 4),
        0xB0 => or_rr(cpu, RegisterName::A, RegisterName::B , 4),
        0xB1 => or_rr(cpu, RegisterName::A, RegisterName::C , 4),
        0xB2 => or_rr(cpu, RegisterName::A, RegisterName::D , 4),
        0xB3 => or_rr(cpu, RegisterName::A, RegisterName::E , 4),
        0xB4 => or_rr(cpu, RegisterName::A, RegisterName::H , 4),
        0xB5 => or_rr(cpu, RegisterName::A, RegisterName::L , 4),
        0xB6 => or_rm(cpu, RegisterName::A, RegisterName::HL , 8),
        0xB7 => or_rr(cpu, RegisterName::A, RegisterName::A , 4),
        0xB8 => cp_rr(cpu, RegisterName::A, RegisterName::B , 4),
        0xB9 => cp_rr(cpu, RegisterName::A, RegisterName::C , 4),
        0xBA => cp_rr(cpu, RegisterName::A, RegisterName::D , 4),
        0xBB => cp_rr(cpu, RegisterName::A, RegisterName::E , 4),
        0xBC => cp_rr(cpu, RegisterName::A, RegisterName::H , 4),
        0xBD => cp_rr(cpu, RegisterName::A, RegisterName::L , 4),
        0xBE => cp_rm(cpu, RegisterName::A, RegisterName::HL , 8),
        0xBF => cp_rr(cpu, RegisterName::A, RegisterName::A , 4),
        _ => 4,
    }
}

/// Executes one 8-bit arithmetic or logic instruction (0x80 to 0xBF).
fn execute_opcode_alu(cpu: &mut CPU, opcode: u8) -> (r: u8)
    requires
        old(cpu).wf(),
        spec_opcode_defined(opcode),
        0x80 <= opcode <= 0xBF,
    ensures
        final(cpu).wf(),
        4 <= r <= 24,
        spec_instruction_rel(*old(cpu), *final(cpu), opcode, r),
{
    if opcode < 0xA0 {
        execute_opcode_adds(cpu, opcode)
    } else {
        execute_opcode_logic(cpu, opcode)
    }
}

/// Executes one instruction from 0xC0 to 0xDF: conditional jumps,
/// calls and returns, stack moves and the first restarts.
fn execute_opcode_calls(cpu: &mut CPU, opcode: u8) -> (r: u8)
    requires
        old(cpu).wf(),
        spec_opcode_defined(opcode),
        opcode != 0xCB,
        0xC0 <= opcode <= 0xDF,
    ensures
        final(cpu).wf(),
        4 <= r <= 24,
        spec_instruction_rel(*old(cpu), *final(cpu), opcode, r),
{
    match opcode {
        0xC0 => ret_if(cpu, Flag::Z, false, 8),
        0xC1 => pop_r(cpu, RegisterName::BC, 12),
        0xC2 => jp_if(cpu, Flag::Z, false, 12),
        0xC3 => jp(cpu, 16),
        0xC4 => call_if(cpu, Flag::Z, false, 12),
        0xC5 => push_r(cpu, RegisterName::BC, 16),
        0xC6 => add_rv(cpu, RegisterName::A, 8),
        0xC7 => rst(cpu, 0x0000, 16),
        0xC8 => ret_if(cpu, Flag::Z, true, 8),
        0xC9 => ret(cpu, 16),
        0xCA => jp_if(cpu, Flag::Z, true, 12),
        0xCC => call_if(cpu, Flag::Z, true, 12),
        0xCD => call(cpu, 24),
        0xCE => adc_rv(cpu, RegisterName::A, 8),
        0xCF => rst(cpu, 0x0008, 16),
        0xD0 => ret_if(cpu, Flag::C, false,8),
        0xD1 => pop_r(cpu, RegisterName::DE,12),
        0xD2 => jp_if(cpu, Flag::C, false,12),
        0xD4 => call_if(cpu, Flag::C, false,12),
        0xD5 => push_r(cpu, RegisterName::DE,16),
        0xD6 => sub_rv(cpu, RegisterName::A,8),
        0xD7 => rst(cpu, 0x0010,16),
        0xD8 => ret_if(cpu, Flag::C, true,8),
        0xD9 => reti(cpu, 16),
        0xDA => jp_if(cpu, Flag::C, true, 12),
        0xDC => call_if(cpu, Flag::C, true, 12),
        0xDE => sbc_rv(cpu, RegisterName::A, 8),
        0xDF => rst(cpu, 0x0018, 16),
        _ => 4,
    }
}

/// Executes one instruction from 0xE0 up: the high-page loads, the
/// stack-pointer arithmetic, the interrupt toggles and the last
/// restarts.
fn execute_opcode_top(cpu: &mut CPU, opcode: u8) -> (r: u8)
    requires
        old(cpu).wf(),
        spec_opcode_defined(opcode),
        0xE0 <= opcode,
    ensures
        final(cpu).wf(),
        4 <= r <= 24,
        spec_instruction_rel(*old(cpu), *final(cpu), opcode, r),
{
    match opcode {
        0xE0 => ld_ff00_u8_a(cpu, 12),
        0xE1 => pop_r(cpu, RegisterName::HL, 12),
        0xE2 => ld_ff00_c_a(cpu, 8),
        0xE5 => push_r(cpu, RegisterName::HL, 16),
        0xE6 => and_rv(cpu, RegisterName::A,8),
        0xE7 => rst(cpu, 0x0020, 16),
        0xE8 => add_sp_i8(cpu, 16),
        0xE9 => jp_r(cpu, RegisterName::HL, 4),
        0xEA => ld_mvr(cpu, RegisterName::A, 16),
        0xEE => xor_rv(cpu, RegisterName::A, 8),
        0xEF => rst(cpu, 0x0028, 16),
        0xF0 => ld_a_ff00_plus_u8(cpu, 12),
        0xF1 => pop_r(cpu, RegisterName::AF, 12),
        0xF2 => ld_a_ff00_c(cpu, 8),
        0xF3 => di(cpu, 4),
        0xF5 => push_r(cpu, RegisterName::AF, 16),
        0xF6 => or_rv(cpu, RegisterName::A, 8),
        0xF7 => rst(cpu, 0x0030, 16),
        0xF8 => ld_hl_spi8(cpu, 12),
        0xF9 => ld_rr(cpu, RegisterName::SP, RegisterName::HL, 8),
        0xFA => ld_rmv(cpu, RegisterName::A, 16),
        0xFB => ei(cpu, 4),
        0xFE => cp_rv(cpu, RegisterName::A, 8),
        0xFF => rst(cpu, 0x0038, 16),
        _ => 4,
    }
}

/// Executes one instruction from 0xC0 up: jumps, calls, returns, stack
/// moves, restarts and the interrupt toggles.
fn execute_opcode_high(cpu: &mut CPU, opcode: u8) -> (r: u8)
    requires
        old(cpu).wf(),
        spec_opcode_defined(opcode),
        opcode != 0xCB,
        0xC0 <= opcode <= 0xFF,
    ensures
        final(cpu).wf(),
        4 <= r <= 24,
        spec_instruction_rel(*old(cpu), *final(cpu), opcode, r),
{
    if opcode < 0xE0 {
        execute_opcode_calls(cpu, opcode)
    } else {
        execute_opcode_top(cpu, opcode)
    }
}

/// Executes one unprefixed instruction: dispatches the opcode to its
/// helper and returns the machine cycles it took.
pub fn execute_opcode(cpu: &mut CPU, opcode: u8) -> (r: u8)
    requires
        old(cpu).wf(),
        spec_opcode_defined(opcode),
        opcode != 0xCB,
    ensures
        final(cpu).wf(),
        4 <= r <= 24,
        spec_instruction_rel(*old(cpu), *final(cpu), opcode, r),
{
    if opcode < 0x40 {
        execute_opcode_low(cpu, opcode)
    } else if opcode < 0x80 {
        execute_opcode_loads(cpu, opcode)
    } else if opcode < 0xC0 {
        execute_opcode_alu(cpu, opcode)
    } else {
        execute_opcode_high(cpu, opcode)
    }
}

} // verus!
