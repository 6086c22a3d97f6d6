//! The instructions of the stack machine, and how a line of text spells one.
use vstd::prelude::*;

use crate::text::{
    has_word, is_alpha, is_digit, is_lit, lit, next_word, parse_unsigned, sub_vec,
    unsigned_value, word, word_end,
};
use crate::vm::segment::{segment_named, Segment};

verus! {

/// A name of a label or of a function, as bytes.
pub type Symbol = Vec<u8>;

/// The instructions of the stack machine.
#[derive(Debug, PartialEq, Eq)]
pub enum InsnKind {
    Add,
    Sub,
    Neg,
    Eq,
    Gt,
    Lt,
    And,
    Or,
    Not,
    Push(Segment, u16),
    Pop(Segment, u16),
    Label(Symbol),
    Goto(Symbol),
    IfGoto(Symbol),
    /// The definition of a function: its name and the number of its local
    /// variables.
    DefFn(Symbol, u16),
    /// The call of a function: its name and the number of its arguments.
    CallFn(Symbol, u16),
    Return,
}

/// `InsnKind` as contracts see it: its text is a sequence of bytes.
pub enum InsnKindView {
    Add,
    Sub,
    Neg,
    Eq,
    Gt,
    Lt,
    And,
    Or,
    Not,
    Push(Segment, u16),
    Pop(Segment, u16),
    Label(Seq<u8>),
    Goto(Seq<u8>),
    IfGoto(Seq<u8>),
    DefFn(Seq<u8>, u16),
    CallFn(Seq<u8>, u16),
    Return,
}

impl View for InsnKind {
    type V = InsnKindView;

    open spec fn view(&self) -> InsnKindView {
        match *self {
            InsnKind::Add => InsnKindView::Add,
            InsnKind::Sub => InsnKindView::Sub,
            InsnKind::Neg => InsnKindView::Neg,
            InsnKind::Eq => InsnKindView::Eq,
            InsnKind::Gt => InsnKindView::Gt,
            InsnKind::Lt => InsnKindView::Lt,
            InsnKind::And => InsnKindView::And,
            InsnKind::Or => InsnKindView::Or,
            InsnKind::Not => InsnKindView::Not,
            InsnKind::Push(s, i) => InsnKindView::Push(s, i),
            InsnKind::Pop(s, i) => InsnKindView::Pop(s, i),
            InsnKind::Label(l) => InsnKindView::Label(l@),
            InsnKind::Goto(l) => InsnKindView::Goto(l@),
            InsnKind::IfGoto(l) => InsnKindView::IfGoto(l@),
            InsnKind::DefFn(n, k) => InsnKindView::DefFn(n@, k),
            InsnKind::CallFn(n, k) => InsnKindView::CallFn(n@, k),
            InsnKind::Return => InsnKindView::Return,
        }
    }
}

/// An instruction and the number of its line, counted from 0.
#[derive(Debug, PartialEq, Eq)]
pub struct Instruction {
    pub kind: InsnKind,
    pub line: usize,
}

/// Why a line is no instruction, or why an instruction cannot be translated.
#[derive(Debug, Clone, Copy, PartialEq, Eq, Structural)]
pub enum VmError {
    /// The line holds no word.
    MissingInstruction,
    /// The first word is no instruction.
    UnknownInstruction,
    /// `push` or `pop` without a segment.
    MissingSegment,
    /// The word behind `push` or `pop` is no segment.
    UnknownSegment,
    /// `push` or `pop` without an index.
    MissingIndex,
    /// A number is expected, and the word is none that 16 bits hold.
    InvalidNumber,
    /// `label`, `goto` or `if-goto` without a label.
    MissingLabel,
    /// The label is no name.
    InvalidLabel,
    /// `function` or `call` without a name.
    MissingFunctionName,
    /// The name of the function is no name.
    InvalidFunctionName,
    /// `function` without the number of its local variables.
    MissingLocals,
    /// `call` without the number of its arguments.
    MissingArguments,
    /// A static variable outside of any unit.
    NoFileName,
    /// A `pop` into the constants.
    PopConstant,
    /// `pointer` with an index other than 0 and 1.
    PointerIndex,
    /// `temp` with an index above 7.
    TempIndex,
    /// The counter of a label is exhausted.
    TooManyLabels,
}

/// A byte that a name may hold: a letter, a digit, `.`, `_` or `:`.
pub open spec fn is_name_byte(b: u8) -> bool {
    is_alpha(b) || is_digit(b) || b == 46 || b == 95 || b == 58
}

/// A name of a label or of a function: it does not start with a digit, and
/// holds letters, digits, `.`, `_` and `:` only.
pub open spec fn is_name(s: Seq<u8>) -> bool {
    &&& !(s.len() > 0 && is_digit(s[0]))
    &&& forall|i: int| 0 <= i < s.len() ==> is_name_byte(#[trigger] s[i])
}

/// Whether `symbol` is a name.
pub fn validate(symbol: &[u8]) -> (r: bool)
    ensures
        r == is_name(symbol@),
{
    if symbol.len() > 0 && 48 <= symbol[0] && symbol[0] <= 57 {
        return false;
    }
    let mut i: usize = 0;
    while i < symbol.len()
        invariant
            i <= symbol@.len(),
            forall|k: int| 0 <= k < i ==> is_name_byte(#[trigger] symbol@[k]),
        decreases symbol@.len() - i,
    {
        let b = symbol[i];
        let ok = (65 <= b && b <= 90) || (97 <= b && b <= 122) || (48 <= b && b <= 57) || b == 46
            || b == 95 || b == 58;
        if !ok {
            return false;
        }
        i = i + 1;
    }
    true
}

/// The number that the word at or after `pos` spells; `missing` where no
/// word stands there.
pub open spec fn number_at(code: Seq<u8>, pos: nat, missing: VmError) -> Result<u16, VmError> {
    if !has_word(code, pos) {
        Err(missing)
    } else {
        match unsigned_value(word(code, pos), 0xffff) {
            Some(v) => Ok(v as u16),
            None => Err(VmError::InvalidNumber),
        }
    }
}

/// `push` or `pop`: a segment and an index.
pub open spec fn stack_insn(code: Seq<u8>, pos: nat, push: bool) -> Result<InsnKindView, VmError> {
    if !has_word(code, pos) {
        Err(VmError::MissingSegment)
    } else {
        match segment_named(word(code, pos)) {
            None => Err(VmError::UnknownSegment),
            Some(segment) => match number_at(code, word_end(code, pos), VmError::MissingIndex) {
                Err(e) => Err(e),
                Ok(index) => Ok(
                    if push {
                        InsnKindView::Push(segment, index)
                    } else {
                        InsnKindView::Pop(segment, index)
                    },
                ),
            },
        }
    }
}

/// The name at or after `pos`.
pub open spec fn name_at(code: Seq<u8>, pos: nat, missing: VmError, invalid: VmError) -> Result<
    Seq<u8>,
    VmError,
> {
    if !has_word(code, pos) {
        Err(missing)
    } else if !is_name(word(code, pos)) {
        Err(invalid)
    } else {
        Ok(word(code, pos))
    }
}

/// `function` or `call`: a name and a number.
pub open spec fn fn_insn(code: Seq<u8>, pos: nat, define: bool) -> Result<InsnKindView, VmError> {
    match name_at(code, pos, VmError::MissingFunctionName, VmError::InvalidFunctionName) {
        Err(e) => Err(e),
        Ok(name) => match number_at(
            code,
            word_end(code, pos),
            if define {
                VmError::MissingLocals
            } else {
                VmError::MissingArguments
            },
        ) {
            Err(e) => Err(e),
            Ok(n) => Ok(
                if define {
                    InsnKindView::DefFn(name, n)
                } else {
                    InsnKindView::CallFn(name, n)
                },
            ),
        },
    }
}

/// The instruction that `code` spells: its first word names the instruction,
/// the words behind it are its operands, and what follows them is ignored.
pub open spec fn parse_insn(code: Seq<u8>) -> Result<InsnKindView, VmError> {
    let w = word(code, 0);
    let p = word_end(code, 0);
    if !has_word(code, 0) {
        Err(VmError::MissingInstruction)
    } else if w == lit("add") {
        Ok(InsnKindView::Add)
    } else if w == lit("sub") {
        Ok(InsnKindView::Sub)
    } else if w == lit("neg") {
        Ok(InsnKindView::Neg)
    } else if w == lit("eq") {
        Ok(InsnKindView::Eq)
    } else if w == lit("gt") {
        Ok(InsnKindView::Gt)
    } else if w == lit("lt") {
        Ok(InsnKindView::Lt)
    } else if w == lit("and") {
        Ok(InsnKindView::And)
    } else if w == lit("or") {
        Ok(InsnKindView::Or)
    } else if w == lit("not") {
        Ok(InsnKindView::Not)
    } else if w == lit("push") {
        stack_insn(code, p, true)
    } else if w == lit("pop") {
        stack_insn(code, p, false)
    } else if w == lit("label") {
        match name_at(code, p, VmError::MissingLabel, VmError::InvalidLabel) {
            Ok(l) => Ok(InsnKindView::Label(l)),
            Err(e) => Err(e),
        }
    } else if w == lit("goto") {
        match name_at(code, p, VmError::MissingLabel, VmError::InvalidLabel) {
            Ok(l) => Ok(InsnKindView::Goto(l)),
            Err(e) => Err(e),
        }
    } else if w == lit("if-goto") {
        match name_at(code, p, VmError::MissingLabel, VmError::InvalidLabel) {
            Ok(l) => Ok(InsnKindView::IfGoto(l)),
            Err(e) => Err(e),
        }
    } else if w == lit("function") {
        fn_insn(code, p, true)
    } else if w == lit("call") {
        fn_insn(code, p, false)
    } else if w == lit("return") {
        Ok(InsnKindView::Return)
    } else {
        Err(VmError::UnknownInstruction)
    }
}

/// The result `r` as contracts see it.
pub open spec fn kind_result(r: Result<InsnKind, VmError>) -> Result<InsnKindView, VmError> {
    match r {
        Ok(k) => Ok(k@),
        Err(e) => Err(e),
    }
}

/// The result `r` as contracts see it.
pub open spec fn insn_result(r: Result<Instruction, VmError>) -> Result<InsnKindView, VmError> {
    match r {
        Ok(i) => Ok(i.kind@),
        Err(e) => Err(e),
    }
}

/// Reads the number at or after `pos`.
pub fn read_number(code: &[u8], pos: usize, missing: VmError) -> (r: Result<u16, VmError>)
    requires
        pos <= code@.len(),
    ensures
        r == number_at(code@, pos as nat, missing),
{
    let (a, b) = match next_word(code, pos) {
        Some(w) => w,
        None => {
            return Err(missing);
        },
    };
    match parse_unsigned(vstd::slice::slice_subrange(code, a, b), 0xffff) {
        Some(v) => Ok(v as u16),
        None => Err(VmError::InvalidNumber),
    }
}

/// Reads the name at or after `pos`, and returns it with the place behind
/// it.
pub fn read_name(code: &[u8], pos: usize, missing: VmError, invalid: VmError) -> (r: Result<
    (Vec<u8>, usize),
    VmError,
>)
    requires
        pos <= code@.len(),
    ensures
        match r {
            Ok(n) => name_at(code@, pos as nat, missing, invalid) == Ok::<Seq<u8>, VmError>(n.0@)
                && n.1 == word_end(code@, pos as nat) && n.1 <= code@.len(),
            Err(e) => name_at(code@, pos as nat, missing, invalid) == Err::<Seq<u8>, VmError>(e),
        },
{
    let (a, b) = match next_word(code, pos) {
        Some(w) => w,
        None => {
            return Err(missing);
        },
    };
    if !validate(vstd::slice::slice_subrange(code, a, b)) {
        return Err(invalid);
    }
    Ok((sub_vec(code, a, b), b))
}

/// Reads a segment and an index at or after `pos`.
pub fn read_stack_insn(code: &[u8], pos: usize, push: bool) -> (r: Result<InsnKind, VmError>)
    requires
        pos <= code@.len(),
    ensures
        kind_result(r) == stack_insn(code@, pos as nat, push),
{
    let (a, b) = match next_word(code, pos) {
        Some(w) => w,
        None => {
            return Err(VmError::MissingSegment);
        },
    };
    let segment = match Segment::try_from(vstd::slice::slice_subrange(code, a, b)) {
        Some(s) => s,
        None => {
            return Err(VmError::UnknownSegment);
        },
    };
    let index = match read_number(code, b, VmError::MissingIndex) {
        Ok(i) => i,
        Err(e) => {
            return Err(e);
        },
    };
    if push {
        Ok(InsnKind::Push(segment, index))
    } else {
        Ok(InsnKind::Pop(segment, index))
    }
}

/// Reads a name and a number at or after `pos`.
pub fn read_fn_insn(code: &[u8], pos: usize, define: bool) -> (r: Result<InsnKind, VmError>)
    requires
        pos <= code@.len(),
    ensures
        kind_result(r) == fn_insn(code@, pos as nat, define),
{
    let (name, end) = match read_name(
        code,
        pos,
        VmError::MissingFunctionName,
        VmError::InvalidFunctionName,
    ) {
        Ok(n) => n,
        Err(e) => {
            return Err(e);
        },
    };
    let missing = if define {
        VmError::MissingLocals
    } else {
        VmError::MissingArguments
    };
    let n = match read_number(code, end, missing) {
        Ok(n) => n,
        Err(e) => {
            return Err(e);
        },
    };
    if define {
        Ok(InsnKind::DefFn(name, n))
    } else {
        Ok(InsnKind::CallFn(name, n))
    }
}

impl InsnKind {
    /// Reads the instruction that `code` spells.
    pub fn parse(code: &[u8]) -> (r: Result<InsnKind, VmError>)
        ensures
            kind_result(r) == parse_insn(code@),
    {
        let (a, p) = match next_word(code, 0) {
            Some(w) => w,
            None => {
                return Err(VmError::MissingInstruction);
            },
        };
        let w = vstd::slice::slice_subrange(code, a, p);
        if is_lit(w, "add") {
            Ok(InsnKind::Add)
        } else if is_lit(w, "sub") {
            Ok(InsnKind::Sub)
        } else if is_lit(w, "neg") {
            Ok(InsnKind::Neg)
        } else if is_lit(w, "eq") {
            Ok(InsnKind::Eq)
        } else if is_lit(w, "gt") {
            Ok(InsnKind::Gt)
        } else if is_lit(w, "lt") {
            Ok(InsnKind::Lt)
        } else if is_lit(w, "and") {
            Ok(InsnKind::And)
        } else if is_lit(w, "or") {
            Ok(InsnKind::Or)
        } else if is_lit(w, "not") {
            Ok(InsnKind::Not)
        } else if is_lit(w, "push") {
            read_stack_insn(code, p, true)
        } else if is_lit(w, "pop") {
            read_stack_insn(code, p, false)
        } else if is_lit(w, "label") {
            match read_name(code, p, VmError::MissingLabel, VmError::InvalidLabel) {
                Ok(l) => Ok(InsnKind::Label(l.0)),
                Err(e) => Err(e),
            }
        } else if is_lit(w, "goto") {
            match read_name(code, p, VmError::MissingLabel, VmError::InvalidLabel) {
                Ok(l) => Ok(InsnKind::Goto(l.0)),
                Err(e) => Err(e),
            }
        } else if is_lit(w, "if-goto") {
            match read_name(code, p, VmError::MissingLabel, VmError::InvalidLabel) {
                Ok(l) => Ok(InsnKind::IfGoto(l.0)),
                Err(e) => Err(e),
            }
        } else if is_lit(w, "function") {
            read_fn_insn(code, p, true)
        } else if is_lit(w, "call") {
            read_fn_insn(code, p, false)
        } else if is_lit(w, "return") {
            Ok(InsnKind::Return)
        } else {
            Err(VmError::UnknownInstruction)
        }
    }
}

impl Instruction {
    /// Reads the instruction that `code` spells, on the line `line`.
    pub fn parse(code: &[u8], line: usize) -> (r: Result<Instruction, VmError>)
        ensures
            insn_result(r) == parse_insn(code@),
            r matches Ok(i) ==> i.line == line,
    {
        match InsnKind::parse(code) {
            Ok(kind) => Ok(Instruction { kind, line }),
            Err(e) => Err(e),
        }
    }
}

} // verus!
