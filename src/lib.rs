//! A verified engine for a 16-bit, sixteen-opcode teaching computer: register
//! file, word-addressed memory with a memory-mapped keyboard, instruction
//! decoding and execution, and the loader for program images.
pub mod cli;
pub mod enums;
pub mod error;
pub mod image;
pub mod memory;
pub mod theorems;
pub mod utils;
pub mod vm;
