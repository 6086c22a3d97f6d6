//! The address command `@x`: `x` is a number, or a symbol that stands for one.
use vstd::prelude::*;

use crate::assembler::commands::AsmError;
use crate::text::{parse_i16, signed_value, AT};

verus! {

/// An address command: a number, or a symbol that stands for one.
#[derive(Debug, PartialEq, Eq)]
pub enum ACommand {
    Value(i16),
    Symbol(Vec<u8>),
}

/// `ACommand` as contracts see it: its text is a sequence of bytes.
pub enum ACommandView {
    Value(i16),
    Symbol(Seq<u8>),
}

impl View for ACommand {
    type V = ACommandView;

    open spec fn view(&self) -> ACommandView {
        match *self {
            ACommand::Value(v) => ACommandView::Value(v),
            ACommand::Symbol(s) => ACommandView::Symbol(s@),
        }
    }
}

/// The address command that `code` spells. What stands behind `@` is a value
/// if it is a number that sixteen bits with a sign hold, and a symbol if not;
/// a value below 0 is an error.
pub open spec fn a_command(code: Seq<u8>) -> Result<ACommandView, AsmError> {
    if !(code.len() > 0 && code[0] == AT) {
        Err(AsmError::NotAnAddress)
    } else {
        let x = code.subrange(1, code.len() as int);
        match signed_value(x) {
            Some(v) => if v < 0 && v >= -32768 {
                Err(AsmError::NegativeAddress)
            } else if v <= 32767 && v >= 0 {
                Ok(ACommandView::Value(v as i16))
            } else {
                Ok(ACommandView::Symbol(x))
            },
            None => Ok(ACommandView::Symbol(x)),
        }
    }
}

/// The result `r` as contracts see it.
pub open spec fn a_result(r: Result<ACommand, AsmError>) -> Result<ACommandView, AsmError> {
    match r {
        Ok(c) => Ok(c@),
        Err(e) => Err(e),
    }
}

impl ACommand {
    /// Reads the address command that `code` spells.
    pub fn parse(code: &[u8]) -> (r: Result<ACommand, AsmError>)
        ensures
            a_result(r) == a_command(code@),
    {
        if !(code.len() > 0 && code[0] == AT) {
            return Err(AsmError::NotAnAddress);
        }
        let x = vstd::slice::slice_subrange(code, 1, code.len());
        match parse_i16(x) {
            Some(v) => {
                if v < 0 {
                    Err(AsmError::NegativeAddress)
                } else {
                    Ok(ACommand::Value(v))
                }
            },
            None => Ok(ACommand::Symbol(vstd::slice::slice_to_vec(x))),
        }
    }
}

} // verus!
