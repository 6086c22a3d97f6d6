//! A three-stage toolchain for the Hack platform: a Jack compiler that emits
//! stack-machine code, a translator from that code to Hack assembly, and an
//! assembler that produces 16-bit machine words.
//!
//! All text is handled as bytes: sources, identifiers and generated code are
//! byte strings, and every position is a byte offset.
pub mod assembler;
pub mod ast;
pub mod fx;
pub mod jack;
pub mod text;
pub mod vm;
