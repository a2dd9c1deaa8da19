//! Emulator core for a 16-bit word-addressed instruction set: the decoder,
//! the flag rules, the word memory, the memory-mapped port surface and the
//! interpreter, each with its contract.

pub mod io;
pub mod isa;
pub mod laws;
pub mod image;
pub mod memory;
pub mod cpu;
pub mod word;
