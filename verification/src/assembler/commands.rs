//! The commands of Hack assembly: `@x` sets the address register, `(X)`
//! declares a label, and everything else computes.
use vstd::prelude::*;

pub mod a;
pub mod c;
pub mod l;

pub use a::ACommand;
pub use c::{CCommand, Dest, Jump};
pub use l::LCommand;

use crate::assembler::commands::a::{a_command, ACommandView};
use crate::assembler::commands::c::{c_command, CCommandView};
use crate::assembler::commands::l::l_command;
use crate::text::{AT, LEFT_PAREN};

verus! {

/// Why a line is no command, or why a command cannot be assembled.
#[derive(Debug, Clone, Copy, PartialEq, Eq, Structural)]
pub enum AsmError {
    /// The line is empty.
    Empty,
    /// An address command that does not start with `@`.
    NotAnAddress,
    /// An address below 0.
    NegativeAddress,
    /// What stands before `=` names no destination.
    UnknownDest,
    /// What stands behind `;` names no jump.
    UnknownJump,
    /// A label without `(`.
    MissingLeftBrace,
    /// A label without `)`, or with `)` before `(`.
    MissingRightBrace,
    /// A symbol that has no address.
    UnknownSymbol,
    /// A computation that the machine does not have.
    UnknownComp,
    /// More instructions than fifteen bits can address.
    ProgramTooLong,
    /// More variables than fifteen bits can address.
    TooManySymbols,
}

/// One command of Hack assembly.
#[derive(Debug, PartialEq, Eq)]
pub enum Command {
    A(ACommand),
    C(CCommand),
    L(LCommand),
}

/// `Command` as contracts see it: its text is a sequence of bytes.
pub enum CommandView {
    A(ACommandView),
    C(CCommandView),
    L(Seq<u8>),
}

impl View for Command {
    type V = CommandView;

    open spec fn view(&self) -> CommandView {
        match *self {
            Command::A(a) => CommandView::A(a@),
            Command::C(c) => CommandView::C(c@),
            Command::L(l) => CommandView::L(l.0@),
        }
    }
}

/// The command that `code` spells: its first byte says of which kind it is.
pub open spec fn command(code: Seq<u8>) -> Result<CommandView, AsmError> {
    if code.len() == 0 {
        Err(AsmError::Empty)
    } else if code[0] == AT {
        match a_command(code) {
            Ok(a) => Ok(CommandView::A(a)),
            Err(e) => Err(e),
        }
    } else if code[0] == LEFT_PAREN {
        match l_command(code) {
            Ok(l) => Ok(CommandView::L(l)),
            Err(e) => Err(e),
        }
    } else {
        match c_command(code) {
            Ok(c) => Ok(CommandView::C(c)),
            Err(e) => Err(e),
        }
    }
}

/// The result `r` as contracts see it.
pub open spec fn command_result(r: Result<Command, AsmError>) -> Result<CommandView, AsmError> {
    match r {
        Ok(c) => Ok(c@),
        Err(e) => Err(e),
    }
}

impl Command {
    /// Reads the command that `code` spells.
    pub fn parse(code: &[u8]) -> (r: Result<Command, AsmError>)
        ensures
            command_result(r) == command(code@),
    {
        if code.len() == 0 {
            return Err(AsmError::Empty);
        }
        let first = code[0];
        if first == AT {
            match ACommand::parse(code) {
                Ok(a) => Ok(Command::A(a)),
                Err(e) => Err(e),
            }
        } else if first == LEFT_PAREN {
            match LCommand::parse(code) {
                Ok(l) => Ok(Command::L(l)),
                Err(e) => Err(e),
            }
        } else {
            match CCommand::parse(code) {
                Ok(c) => Ok(Command::C(c)),
                Err(e) => Err(e),
            }
        }
    }
}

} // verus!
