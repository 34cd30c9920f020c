//! A CHIP-8 virtual machine core: a decoder that maps 16-bit instruction
//! words to tagged variants, and a CPU that owns the machine state (memory,
//! registers, stack, framebuffer, timers, key state) and applies one decoded
//! instruction per cycle.

pub mod cpu;
pub mod draw;
pub mod laws;
pub mod decoder;
pub mod opcode;
