//! The IA-32 instruction set: operands, the ModR/M encoder and mnemonic surfaces.
pub mod base;
pub mod basic;
pub mod math;
pub mod branching;
pub mod fp;
