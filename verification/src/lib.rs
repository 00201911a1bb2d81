//! A toy 6502 toolchain: an assembler that writes machine code for a subset of the
//! instruction set into a memory image, and an engine that runs that image.

pub mod asm_parser;
pub mod asm_runner;
pub mod cpu;
pub mod error;
pub mod memory;
pub mod token;
pub mod util;
