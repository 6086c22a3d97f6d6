//! The translator from stack-machine code to Hack assembly.
pub mod asm_text;
pub mod insn;
pub mod labels;
pub mod parser;
pub mod segment;
pub mod symbol;
pub mod translate;
