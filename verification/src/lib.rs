//! A verified CHIP-8 virtual machine: the machine state, its
//! fetch-decode-execute cycle, and a disassembler for the same opcode space.

pub mod chip8;
pub mod display;
pub mod emu;
pub mod isa;
pub mod laws;
