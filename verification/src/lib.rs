//! The instruction-processing core of a CHIP-8 style virtual machine:
//! memory, registers, call stack, timers and framebuffer, driven by a
//! fetch-decode-execute cycle.

pub mod assembler;
pub mod chip8;
pub mod disassembler;
pub mod emulator;
pub mod machine;
