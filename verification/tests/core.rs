//! End-to-end checks of the emulator core: reset state, timer overflow,
//! the OAM transfer, the vertical blank entry, instruction semantics,
//! interrupt dispatch, the flag invariants and the boundary arithmetic.

use lib_dmg::cpu::CPU;
use lib_dmg::function::{add_rr, daa, jr, push_r, pop_r};
use lib_dmg::gpu::Mode;
use lib_dmg::registers::{Flag, RegisterName};

fn rom_with(program: &[u8]) -> Vec<u8> {
    let mut rom = vec![0u8; 0x8000];
    for (i, b) in program.iter().enumerate() {
        rom[0x0100 + i] = *b;
    }
    rom
}

fn fresh_cpu() -> CPU {
    CPU::new(&vec![0u8; 0x8000])
}

#[test]
fn test_tile_set_buffer() {
    let gpu = lib_dmg::gpu::GPU::new();
    gpu.tile_set_as_buffer(false);
}

#[test]
fn reset_state() {
    let mut cpu = fresh_cpu();
    assert_eq!(cpu.registers.a, 0);
    assert_eq!(cpu.registers.f, 0);
    assert_eq!(cpu.registers.pc, 0x0100);
    assert_eq!(cpu.registers.sp, 0xFFFE);
    assert_eq!(cpu.bus.bus_read(0xFF04), 0xAC);
    assert_eq!(cpu.bus.bus_read(0xFFFF) & 0x1F, 0);
    assert_eq!(cpu.bus.bus_read(0xFF0F) & 0x1F, 0);
    assert_eq!(cpu.bus.bus_read(0xFF40), 0x91);
    assert_eq!(cpu.bus.bus_read(0xFF44), 0);
}

#[test]
fn timer_fires() {
    let mut cpu = fresh_cpu();
    cpu.bus.bus_write(0xFF07, 0x05);
    cpu.bus.bus_write(0xFF05, 0xFF);
    cpu.bus.bus_write(0xFF06, 0x42);
    cpu.bus.step(16);
    assert_eq!(cpu.bus.bus_read(0xFF05), 0x42);
    assert!(cpu.bus.io.interrupt_flag.timer);
}

#[test]
fn oam_transfer() {
    let mut cpu = fresh_cpu();
    for offset in 0..0xA0u16 {
        cpu.bus.bus_write(0xC000 + offset, 0xA5);
    }
    cpu.bus.bus_write(0xFF46, 0xC0);
    for offset in 0..0xA0u16 {
        assert_eq!(cpu.bus.bus_read(0xFE00 + offset), 0xA5);
    }
    assert_eq!(cpu.bus.gpu.object_data[0].y, 0xA5 - 0x10);
}

#[test]
fn vblank_entry() {
    let mut cpu = fresh_cpu();
    cpu.bus.gpu.line = 143;
    cpu.bus.gpu.mode = Mode::HorizontalBlank;
    cpu.bus.step(204);
    assert_eq!(cpu.bus.gpu.mode, Mode::VerticalBlank);
    assert_eq!(cpu.bus.gpu.line, 144);
    assert!(cpu.bus.io.interrupt_flag.vblank);
}

#[test]
fn add_instruction_semantics() {
    // LD A,0x3C; LD B,0xC6; ADD A,B
    let rom = rom_with(&[0x3E, 0x3C, 0x06, 0xC6, 0x80]);
    let mut cpu = CPU::new(&rom);
    cpu.step();
    cpu.step();
    cpu.step();
    assert_eq!(cpu.registers.a, 0x02);
    assert!(!cpu.registers.check_flag(Flag::Z));
    assert!(!cpu.registers.check_flag(Flag::N));
    assert!(cpu.registers.check_flag(Flag::H));
    assert!(cpu.registers.check_flag(Flag::C));
    assert_eq!(cpu.registers.f & 0x0F, 0);
}

#[test]
fn interrupt_vector() {
    let mut cpu = fresh_cpu();
    cpu.bus.bus_write(0xFFFF, 0x01);
    cpu.bus.io.interrupt_flag.vblank = true;
    cpu.registers.pc = 0x1234;
    cpu.registers.sp = 0xFFFE;
    cpu.step();
    assert_eq!(cpu.registers.pc, 0x0040);
    assert_eq!(cpu.registers.sp, 0xFFFC);
    assert_eq!(cpu.bus.bus_read(0xFFFC), 0x35);
    assert_eq!(cpu.bus.bus_read(0xFFFD), 0x12);
    assert!(!cpu.interrupt_enabled);
    assert!(!cpu.bus.io.interrupt_flag.vblank);
}

#[test]
fn push_pop_round_trip() {
    let mut cpu = fresh_cpu();
    cpu.registers.set_bc(0xBEEF);
    cpu.registers.sp = 0xFFFE;
    push_r(&mut cpu, RegisterName::BC, 16);
    cpu.registers.set_bc(0);
    pop_r(&mut cpu, RegisterName::BC, 12);
    assert_eq!(cpu.registers.get_bc(), 0xBEEF);
    assert_eq!(cpu.registers.sp, 0xFFFE);
    // AF: the low nibble of F is masked on the way back.
    cpu.registers.a = 0x12;
    cpu.registers.f = 0xF0;
    push_r(&mut cpu, RegisterName::AF, 16);
    cpu.registers.set_af(0);
    pop_r(&mut cpu, RegisterName::AF, 12);
    assert_eq!(cpu.registers.get_af(), 0x12F0);
    assert_eq!(cpu.registers.f & 0x0F, 0);
}

#[test]
fn stack_wraps_at_zero() {
    let mut cpu = fresh_cpu();
    cpu.registers.sp = 0x0000;
    cpu.push_stack(0x7E);
    // the pointer wrapped to the top slot, which is the IE register:
    // its unused bits read back as 1 around the five stored bits
    assert_eq!(cpu.registers.sp, 0xFFFF);
    assert_eq!(cpu.pop_stack(), 0xE0 | (0x7E & 0x1F));
    assert_eq!(cpu.registers.sp, 0x0000);
}

#[test]
fn memory_word_round_trip() {
    let mut cpu = fresh_cpu();
    for addr in [0xC123u16, 0xA000, 0x8000, 0xFF80] {
        cpu.bus.bus_write_word(addr, 0xBEEF);
        assert_eq!(cpu.bus.bus_read_word(addr), 0xBEEF);
    }
}

#[test]
fn echo_reads_work_ram() {
    let mut cpu = fresh_cpu();
    cpu.bus.bus_write(0xC100, 0x5A);
    assert_eq!(cpu.bus.bus_read(0xE100), 0x5A);
    // writes into the echo region are dropped
    cpu.bus.bus_write(0xE100, 0x11);
    assert_eq!(cpu.bus.bus_read(0xC100), 0x5A);
}

#[test]
fn half_carry_all_pairs() {
    let mut cpu = fresh_cpu();
    for a in 0..=255u8 {
        for b in 0..=255u8 {
            cpu.registers.a = a;
            cpu.registers.b = b;
            add_rr(&mut cpu, RegisterName::A, RegisterName::B, 4);
            assert_eq!(
                cpu.registers.check_flag(Flag::H),
                (a & 0x0F) + (b & 0x0F) > 0x0F,
                "ADD H flag for {a:#x} + {b:#x}"
            );
            cpu.registers.a = a;
            cpu.registers.b = b;
            lib_dmg::function::sub_rr(&mut cpu, RegisterName::A, RegisterName::B, 4);
            assert_eq!(
                cpu.registers.check_flag(Flag::H),
                (a & 0x0F) < (b & 0x0F),
                "SUB H flag for {a:#x} - {b:#x}"
            );
        }
    }
}

#[test]
fn add_hl_half_carry_from_bit_11() {
    let mut cpu = fresh_cpu();
    cpu.registers.set_hl(0x0FFF);
    cpu.registers.set_bc(0x0001);
    add_rr(&mut cpu, RegisterName::HL, RegisterName::BC, 8);
    assert_eq!(cpu.registers.get_hl(), 0x1000);
    assert!(cpu.registers.check_flag(Flag::H));
    assert!(!cpu.registers.check_flag(Flag::C));
}

#[test]
fn relative_jump_extremes() {
    let mut cpu = fresh_cpu();
    cpu.bus.bus_write(0xC000, 0x80); // -128
    cpu.registers.pc = 0xC000;
    jr(&mut cpu, 12);
    assert_eq!(cpu.registers.pc, 0xC001u16.wrapping_add((-128i16) as u16));
    cpu.bus.bus_write(0xC100, 0x7F); // +127
    cpu.registers.pc = 0xC100;
    jr(&mut cpu, 12);
    assert_eq!(cpu.registers.pc, 0xC101 + 127);
}

#[test]
fn daa_all_flag_combinations() {
    // Every (A, N, H, C) combination stays decimal-consistent with the
    // adjustment table: spot-check the canonical vectors and the
    // exhaustive range against a reference computation.
    let mut cpu = fresh_cpu();
    for a in 0..=255u8 {
        for flags in 0..8u8 {
            let n = flags & 1 != 0;
            let h = flags & 2 != 0;
            let c = flags & 4 != 0;
            cpu.registers.update_flag(Flag::N, n);
            cpu.registers.update_flag(Flag::H, h);
            cpu.registers.update_flag(Flag::C, c);
            cpu.registers.a = a;
            daa(&mut cpu, 4);
            let mut expect = a;
            let mut carry = c;
            if !n {
                if c || a > 0x99 {
                    expect = expect.wrapping_add(0x60);
                    carry = true;
                }
                if h || (expect & 0x0F) > 0x09 {
                    expect = expect.wrapping_add(0x06);
                }
            } else {
                if c {
                    expect = expect.wrapping_sub(0x60);
                }
                if h {
                    expect = expect.wrapping_sub(0x06);
                }
            }
            assert_eq!(cpu.registers.a, expect);
            assert_eq!(cpu.registers.check_flag(Flag::C), carry);
            assert_eq!(cpu.registers.check_flag(Flag::Z), expect == 0);
            assert_eq!(cpu.registers.f & 0x0F, 0);
        }
    }
}

#[test]
fn boot_rom_overlay_and_disable() {
    let mut rom = vec![0x11u8; 0x8000];
    let boot = vec![0x22u8; 0x100];
    let cart = lib_dmg::cart::Cartridge::new_with_boot_rom(&rom, &boot);
    assert_eq!(cart.cart_read(0x0050), 0x22);
    assert_eq!(cart.cart_read(0x0150), 0x11);
    let mut cpu = fresh_cpu();
    cpu.bus.cart = cart;
    cpu.bus.bus_write(0xFF50, 1);
    assert_eq!(cpu.bus.bus_read(0x0050), 0x11);
    drop(rom.pop());
}
