//! The x86-64 instruction set: operands, encoder helpers and mnemonic surfaces.
pub mod base;
pub mod basic;
pub mod math;
pub mod branching;
pub mod fp;
