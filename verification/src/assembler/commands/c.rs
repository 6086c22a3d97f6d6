//! The compute command `dest=comp;jump`: `dest=` and `;jump` may be left
//! out.
use vstd::prelude::*;

use crate::assembler::commands::AsmError;
use crate::text::{find_byte, is_lit, lit, search_byte, sub_vec, EQUALS, SEMICOLON};
use crate::vm::parser::lemma_find_byte;

verus! {

/// Where a computation is stored: any of the registers `A` and `D` and the memory `M`.
#[derive(Debug, PartialEq, Eq, Clone, Copy, Structural)]
pub enum Dest {
    Null,
    M,
    D,
    MD,
    A,
    AM,
    AD,
    AMD,
}

/// The dest that `s` names, if it names one. Nothing and `null` name none.
pub open spec fn dest_named(s: Seq<u8>) -> Option<Dest> {
    if s == lit("null") || s == lit("") {
        Some(Dest::Null)
    } else if s == lit("M") {
        Some(Dest::M)
    } else if s == lit("D") {
        Some(Dest::D)
    } else if s == lit("MD") {
        Some(Dest::MD)
    } else if s == lit("A") {
        Some(Dest::A)
    } else if s == lit("AM") {
        Some(Dest::AM)
    } else if s == lit("AD") {
        Some(Dest::AD)
    } else if s == lit("AMD") {
        Some(Dest::AMD)
    } else {
        None
    }
}

impl Dest {
    /// The three bits of the dest in a machine word.
    pub open spec fn code(self) -> nat {
        match self {
            Dest::Null => 0,
            Dest::M => 1,
            Dest::D => 2,
            Dest::MD => 3,
            Dest::A => 4,
            Dest::AM => 5,
            Dest::AD => 6,
            Dest::AMD => 7,
        }
    }

    /// The three bits of the dest in a machine word.
    pub fn bits(&self) -> (r: u16)
        ensures
            r == self.code(),
    {
        match self {
            Dest::Null => 0,
            Dest::M => 1,
            Dest::D => 2,
            Dest::MD => 3,
            Dest::A => 4,
            Dest::AM => 5,
            Dest::AD => 6,
            Dest::AMD => 7,
        }
    }

    /// The dest that `s` names, if it names one.
    pub fn try_from(s: &[u8]) -> (r: Option<Dest>)
        ensures
            r == dest_named(s@),
    {
        if is_lit(s, "null") || is_lit(s, "") {
            Some(Dest::Null)
        } else if is_lit(s, "M") {
            Some(Dest::M)
        } else if is_lit(s, "D") {
            Some(Dest::D)
        } else if is_lit(s, "MD") {
            Some(Dest::MD)
        } else if is_lit(s, "A") {
            Some(Dest::A)
        } else if is_lit(s, "AM") {
            Some(Dest::AM)
        } else if is_lit(s, "AD") {
            Some(Dest::AD)
        } else if is_lit(s, "AMD") {
            Some(Dest::AMD)
        } else {
            None
        }
    }
}

/// When a computation jumps: on its result being above, equal to or below 0.
#[derive(Debug, PartialEq, Eq, Clone, Copy, Structural)]
pub enum Jump {
    Null,
    JGT,
    JEQ,
    JGE,
    JLT,
    JNE,
    JLE,
    JMP,
}

/// The jump that `s` names, if it names one. Nothing and `null` name none.
pub open spec fn jump_named(s: Seq<u8>) -> Option<Jump> {
    if s == lit("null") || s == lit("") {
        Some(Jump::Null)
    } else if s == lit("JGT") {
        Some(Jump::JGT)
    } else if s == lit("JEQ") {
        Some(Jump::JEQ)
    } else if s == lit("JGE") {
        Some(Jump::JGE)
    } else if s == lit("JLT") {
        Some(Jump::JLT)
    } else if s == lit("JNE") {
        Some(Jump::JNE)
    } else if s == lit("JLE") {
        Some(Jump::JLE)
    } else if s == lit("JMP") {
        Some(Jump::JMP)
    } else {
        None
    }
}

impl Jump {
    /// The three bits of the jump in a machine word.
    pub open spec fn code(self) -> nat {
        match self {
            Jump::Null => 0,
            Jump::JGT => 1,
            Jump::JEQ => 2,
            Jump::JGE => 3,
            Jump::JLT => 4,
            Jump::JNE => 5,
            Jump::JLE => 6,
            Jump::JMP => 7,
        }
    }

    /// The three bits of the jump in a machine word.
    pub fn bits(&self) -> (r: u16)
        ensures
            r == self.code(),
    {
        match self {
            Jump::Null => 0,
            Jump::JGT => 1,
            Jump::JEQ => 2,
            Jump::JGE => 3,
            Jump::JLT => 4,
            Jump::JNE => 5,
            Jump::JLE => 6,
            Jump::JMP => 7,
        }
    }

    /// The jump that `s` names, if it names one.
    pub fn try_from(s: &[u8]) -> (r: Option<Jump>)
        ensures
            r == jump_named(s@),
    {
        if is_lit(s, "null") || is_lit(s, "") {
            Some(Jump::Null)
        } else if is_lit(s, "JGT") {
            Some(Jump::JGT)
        } else if is_lit(s, "JEQ") {
            Some(Jump::JEQ)
        } else if is_lit(s, "JGE") {
            Some(Jump::JGE)
        } else if is_lit(s, "JLT") {
            Some(Jump::JLT)
        } else if is_lit(s, "JNE") {
            Some(Jump::JNE)
        } else if is_lit(s, "JLE") {
            Some(Jump::JLE)
        } else if is_lit(s, "JMP") {
            Some(Jump::JMP)
        } else {
            None
        }
    }
}

/// A compute command: where the result goes, what is computed, and when to
/// jump. The computation is kept as it is written.
#[derive(Debug, PartialEq, Eq)]
pub struct CCommand {
    pub dest: Dest,
    pub comp: Vec<u8>,
    pub jump: Jump,
}

/// `CCommand` as contracts see it: its text is a sequence of bytes.
pub struct CCommandView {
    pub dest: Dest,
    pub comp: Seq<u8>,
    pub jump: Jump,
}

impl View for CCommand {
    type V = CCommandView;

    open spec fn view(&self) -> CCommandView {
        CCommandView { dest: self.dest, comp: self.comp@, jump: self.jump }
    }
}

/// The destination of `code`: what stands before the first `=`, if there is
/// one.
pub open spec fn c_dest(code: Seq<u8>) -> Result<Dest, AsmError> {
    match find_byte(code, 0, EQUALS) {
        None => Ok(Dest::Null),
        Some(p) => match dest_named(code.subrange(0, p as int)) {
            Some(d) => Ok(d),
            None => Err(AsmError::UnknownDest),
        },
    }
}

/// The jump of `code`: what stands behind the first `;`, if there is one.
pub open spec fn c_jump(code: Seq<u8>) -> Result<Jump, AsmError> {
    match find_byte(code, 0, SEMICOLON) {
        None => Ok(Jump::Null),
        Some(p) => match jump_named(code.subrange((p + 1) as int, code.len() as int)) {
            Some(j) => Ok(j),
            None => Err(AsmError::UnknownJump),
        },
    }
}

/// Where the computation of `code` starts: behind the first `=`, or at the
/// start.
pub open spec fn comp_start(code: Seq<u8>) -> nat {
    match find_byte(code, 0, EQUALS) {
        None => 0,
        Some(p) => p + 1,
    }
}

/// Where the computation of `code` ends: at the first `;`, or at the end.
pub open spec fn comp_end(code: Seq<u8>) -> nat {
    match find_byte(code, 0, SEMICOLON) {
        None => code.len(),
        Some(p) => p,
    }
}

/// The compute command that `code` spells. The computation is taken as it
/// stands: whether the machine has it is found out when the command is
/// assembled.
pub open spec fn c_command(code: Seq<u8>) -> Result<CCommandView, AsmError> {
    match c_dest(code) {
        Err(e) => Err(e),
        Ok(dest) => match c_jump(code) {
            Err(e) => Err(e),
            Ok(jump) => Ok(
                CCommandView {
                    dest,
                    comp: code.subrange(comp_start(code) as int, comp_end(code) as int),
                    jump,
                },
            ),
        },
    }
}

/// The bytes of a string literal of ASCII characters are its characters.
proof fn lemma_lit(s: &str)
    requires
        vstd::string::is_ascii(s),
    ensures
        lit(s) =~= Seq::new(s@.len(), |i: int| s@[i] as u8),
{
    vstd::string::is_ascii_spec_bytes(s);
}

/// No destination is spelt with a `;`.
pub proof fn lemma_dest_has_no_semicolon(s: Seq<u8>)
    requires
        dest_named(s) is Some,
    ensures
        forall|i: int| 0 <= i < s.len() ==> s[i] != SEMICOLON,
{
    reveal_strlit("null");
    reveal_strlit("");
    reveal_strlit("M");
    reveal_strlit("D");
    reveal_strlit("MD");
    reveal_strlit("A");
    reveal_strlit("AM");
    reveal_strlit("AD");
    reveal_strlit("AMD");
    lemma_lit("null");
    lemma_lit("");
    lemma_lit("M");
    lemma_lit("D");
    lemma_lit("MD");
    lemma_lit("A");
    lemma_lit("AM");
    lemma_lit("AD");
    lemma_lit("AMD");
}

/// Where a destination stands before `=`, the computation does not end
/// before it starts.
pub proof fn lemma_comp_range(code: Seq<u8>)
    requires
        c_dest(code) is Ok,
    ensures
        comp_start(code) <= comp_end(code) <= code.len(),
{
    lemma_find_byte(code, 0, EQUALS);
    lemma_find_byte(code, 0, SEMICOLON);
    match find_byte(code, 0, EQUALS) {
        Some(p) => {
            lemma_dest_has_no_semicolon(code.subrange(0, p as int));
            match find_byte(code, 0, SEMICOLON) {
                Some(q) => {
                    if q < p {
                        assert(code.subrange(0, p as int)[q as int] == SEMICOLON);
                    }
                },
                None => {},
            }
        },
        None => {},
    }
}

/// The result `r` as contracts see it.
pub open spec fn c_result(r: Result<CCommand, AsmError>) -> Result<CCommandView, AsmError> {
    match r {
        Ok(c) => Ok(c@),
        Err(e) => Err(e),
    }
}

impl CCommand {
    /// Reads the compute command that `code` spells.
    pub fn parse(code: &[u8]) -> (r: Result<CCommand, AsmError>)
        ensures
            c_result(r) == c_command(code@),
    {
        let length = code.len();
        let equal = search_byte(code, 0, EQUALS);
        let colon = search_byte(code, 0, SEMICOLON);
        let dest = match equal {
            Some(p) => match Dest::try_from(vstd::slice::slice_subrange(code, 0, p)) {
                Some(d) => d,
                None => {
                    return Err(AsmError::UnknownDest);
                },
            },
            None => Dest::Null,
        };
        let from = match equal {
            Some(p) => p + 1,
            None => 0,
        };
        let to = match colon {
            Some(p) => p,
            None => length,
        };
        proof {
            lemma_comp_range(code@);
        }
        let jump = match colon {
            Some(p) => match Jump::try_from(vstd::slice::slice_subrange(code, p + 1, length)) {
                Some(j) => j,
                None => {
                    return Err(AsmError::UnknownJump);
                },
            },
            None => Jump::Null,
        };
        Ok(CCommand { dest, comp: sub_vec(code, from, to), jump })
    }
}

} // verus!
