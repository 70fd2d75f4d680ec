//! A runtime assembler for IA-32 and x86-64: typed mnemonic operations that append
//! their machine encoding to a byte buffer, labels with deferred relocations, and a
//! linker that patches a finished buffer for a given load address.

pub mod bytes;
pub mod buffer;
pub mod assembler;
pub mod link;
pub mod x64;
pub mod ia32;

pub use buffer::{
    AsmBuffer, AsmHelper, AsmOffset, Label, LabelRef, RelocationInfo, RelocationKind,
    RelocationSize,
};
pub use assembler::Asm;
pub use link::LinkError;
