//! The Jack compiler: lexer, parser, symbol table, diagnostics and the
//! generator of stack-machine code.
pub mod compiler;
pub mod diagnosis;
pub mod emit;
pub mod error;
pub mod grammar;
pub mod labels;
pub mod lexer;
pub mod parser;
pub mod round_trip;
pub mod session;
pub mod stdlib;
pub mod stream;
pub mod symbol;
pub mod token;
