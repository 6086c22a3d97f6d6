//! The label command `(X)`: the symbol `X` stands for the address of the next
//! instruction.
use vstd::prelude::*;

use crate::assembler::commands::AsmError;
use crate::text::{find_byte, search_byte, sub_vec, LEFT_PAREN, RIGHT_PAREN};

verus! {

/// A label command: the symbol that it declares.
#[derive(Debug, PartialEq, Eq, Clone)]
pub struct LCommand(pub Vec<u8>);

/// The label that `code` declares: what stands between the first `(` and the
/// first `)`.
pub open spec fn l_command(code: Seq<u8>) -> Result<Seq<u8>, AsmError> {
    match find_byte(code, 0, LEFT_PAREN) {
        None => Err(AsmError::MissingLeftBrace),
        Some(left) => match find_byte(code, 0, RIGHT_PAREN) {
            None => Err(AsmError::MissingRightBrace),
            Some(right) => if left < right {
                Ok(code.subrange((left + 1) as int, right as int))
            } else {
                Err(AsmError::MissingRightBrace)
            },
        },
    }
}

/// The result `r` as contracts see it.
pub open spec fn l_result(r: Result<LCommand, AsmError>) -> Result<Seq<u8>, AsmError> {
    match r {
        Ok(c) => Ok(c.0@),
        Err(e) => Err(e),
    }
}

impl LCommand {
    /// Reads the label command that `code` spells.
    pub fn parse(code: &[u8]) -> (r: Result<LCommand, AsmError>)
        ensures
            l_result(r) == l_command(code@),
    {
        let left = match search_byte(code, 0, LEFT_PAREN) {
            Some(p) => p,
            None => {
                return Err(AsmError::MissingLeftBrace);
            },
        };
        let right = match search_byte(code, 0, RIGHT_PAREN) {
            Some(p) => p,
            None => {
                return Err(AsmError::MissingRightBrace);
            },
        };
        if left < right {
            Ok(LCommand(sub_vec(code, left + 1, right)))
        } else {
            Err(AsmError::MissingRightBrace)
        }
    }
}

} // verus!
