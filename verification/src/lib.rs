//! Core of a cycle-driven emulator for the original 8-bit handheld console
//! (Sharp LR35902 CPU with a tile-based LCD pixel pipeline and memory-mapped
//! peripherals). The crate models the synchronised system bus: CPU decoder
//! and executor, memory bus and address decoder, pixel processing unit,
//! timer, and the interrupt coordination between them.

pub mod bus;
pub mod cart;
pub mod cb_function;
pub mod cb_instructions;
pub mod cpu;
pub mod function;
pub mod instructions;
pub mod gpu;
pub mod interrupt;
pub mod io;
pub mod joypad;
pub mod ram;
pub mod registers;
pub mod timer;
