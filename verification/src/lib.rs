//! Instruction fetch-decode-execute core of a classic 8-bit handheld game
//! console: the register file and flag semantics, the byte-addressable memory
//! bus, the opcode decoder (with its prefixed secondary opcode table) and the
//! dispatcher that applies each instruction and computes the next program
//! counter. A separate module reads the metadata header of a ROM image.

pub mod cpu;
pub mod rom;
mod text;
