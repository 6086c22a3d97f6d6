//! The assembler: from Hack assembly to machine words, written as lines of
//! sixteen digits `0` and `1`.
pub mod codegen;
pub mod commands;
pub mod parser;
pub mod symbol;
