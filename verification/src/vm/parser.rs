//! The parser of stack-machine code: one instruction to a line, comments
//! behind `//`.
use vstd::prelude::*;

use crate::text::{
    find_byte, find_pair, has_word, lit, next_word, search_byte, search_pair, NEWLINE, SLASH,
};
use crate::vm::insn::{parse_insn, InsnKindView, Instruction, VmError};

verus! {

/// What a program was read as: its instructions with their lines, and the
/// lines that are no instructions with the reasons. Lines count from 0.
pub struct Parsing {
    pub instructions: Seq<(InsnKindView, nat)>,
    pub errors: Seq<(nat, VmError)>,
}

/// Where the line that starts at `pos` ends: at the next line feed, or at the
/// end of the text.
pub open spec fn line_end(src: Seq<u8>, pos: nat) -> nat {
    match find_byte(src, pos, NEWLINE) {
        Some(p) => p,
        None => src.len(),
    }
}

/// The code of a line: what stands before `//`.
pub open spec fn code_of(line: Seq<u8>) -> Seq<u8> {
    match find_pair(line, 0, SLASH, SLASH) {
        Some(p) => line.subrange(0, p as int),
        None => line,
    }
}

/// Where `find_byte` finds the byte, it stands there, at or after `pos`.
pub proof fn lemma_find_byte(src: Seq<u8>, pos: nat, a: u8)
    ensures
        find_byte(src, pos, a) matches Some(p) ==> pos <= p < src.len() && src[p as int] == a,
    decreases src.len() - pos,
{
    if pos < src.len() && src[pos as int] != a {
        lemma_find_byte(src, pos + 1, a);
    }
}

/// What the line `code` adds to `acc`: nothing if it is empty, else its
/// instruction or the reason why it is none.
pub open spec fn parse_line(code: Seq<u8>, row: nat, acc: Parsing) -> Parsing {
    if !has_word(code, 0) {
        acc
    } else {
        match parse_insn(code) {
            Ok(kind) => Parsing { instructions: acc.instructions.push((kind, row)), ..acc },
            Err(e) => Parsing { errors: acc.errors.push((row, e)), ..acc },
        }
    }
}

/// How many bytes of `src` stand at or after `pos`.
pub open spec fn bytes_left(src: Seq<u8>, pos: nat) -> nat {
    if pos < src.len() {
        (src.len() - pos) as nat
    } else {
        0
    }
}

/// What the lines of `src` from `pos` on add to `acc`; `row` is the number of
/// the line at `pos`.
pub open spec fn parse_from(src: Seq<u8>, pos: nat, row: nat, acc: Parsing) -> Parsing
    decreases bytes_left(src, pos),
{
    if pos >= src.len() {
        acc
    } else {
        let e = line_end(src, pos);
        proof {
            lemma_find_byte(src, pos, NEWLINE);
        }
        parse_from(
            src,
            e + 1,
            row + 1,
            parse_line(code_of(src.subrange(pos as int, e as int)), row, acc),
        )
    }
}

/// What the program `src` is read as.
pub open spec fn parse_program(src: Seq<u8>) -> Parsing {
    parse_from(src, 0, 0, Parsing { instructions: Seq::empty(), errors: Seq::empty() })
}

/// The elements of `v` as contracts see them.
pub open spec fn instructions_view(v: Seq<Instruction>) -> Seq<(InsnKindView, nat)> {
    Seq::new(v.len(), |i: int| (v[i].kind@, v[i].line as nat))
}

/// The elements of `v` as contracts see them.
pub open spec fn errors_view(v: Seq<(usize, VmError)>) -> Seq<(nat, VmError)> {
    Seq::new(v.len(), |i: int| (v[i].0 as nat, v[i].1))
}

/// Reads a program: every line that is neither empty nor a comment is an
/// instruction, or is reported.
pub fn parse(program: &str) -> (r: (Vec<Instruction>, Vec<(usize, VmError)>))
    ensures
        instructions_view(r.0@) == parse_program(lit(program)).instructions,
        errors_view(r.1@) == parse_program(lit(program)).errors,
{
    parse_bytes(program.as_bytes())
}

/// Reads a program from its bytes.
pub fn parse_bytes(src: &[u8]) -> (r: (Vec<Instruction>, Vec<(usize, VmError)>))
    ensures
        instructions_view(r.0@) == parse_program(src@).instructions,
        errors_view(r.1@) == parse_program(src@).errors,
{
    let mut instructions: Vec<Instruction> = Vec::new();
    let mut errors: Vec<(usize, VmError)> = Vec::new();
    let mut pos: usize = 0;
    let mut row: usize = 0;
    assert(instructions_view(instructions@) =~= Seq::<(InsnKindView, nat)>::empty());
    assert(errors_view(errors@) =~= Seq::<(nat, VmError)>::empty());
    while pos < src.len()
        invariant
            row <= pos,
            parse_from(
                src@,
                pos as nat,
                row as nat,
                Parsing {
                    instructions: instructions_view(instructions@),
                    errors: errors_view(errors@),
                },
            ) == parse_program(src@),
        decreases src@.len() - pos,
    {
        let end = match search_byte(src, pos, NEWLINE) {
            Some(p) => p,
            None => src.len(),
        };
        let line = vstd::slice::slice_subrange(src, pos, end);
        let code = match search_pair(line, 0, SLASH, SLASH) {
            Some(p) => vstd::slice::slice_subrange(line, 0, p),
            None => line,
        };
        let ghost before = Parsing {
            instructions: instructions_view(instructions@),
            errors: errors_view(errors@),
        };
        proof {
            lemma_find_byte(src@, pos as nat, NEWLINE);
            assert(line_end(src@, pos as nat) == end);
            assert(code@ == code_of(src@.subrange(pos as int, end as int)));
        }
        if next_word(code, 0).is_some() {
            match Instruction::parse(code, row) {
                Ok(insn) => {
                    let ghost iv = (insn.kind@, row as nat);
                    instructions.push(insn);
                    assert(instructions_view(instructions@) =~= before.instructions.push(iv));
                },
                Err(e) => {
                    errors.push((row, e));
                    assert(errors_view(errors@) =~= before.errors.push((row as nat, e)));
                },
            }
        }
        let ghost after = Parsing {
            instructions: instructions_view(instructions@),
            errors: errors_view(errors@),
        };
        assert(after == parse_line(code@, row as nat, before));
        assert(parse_from(src@, pos as nat, row as nat, before) == parse_from(
            src@,
            (end + 1) as nat,
            (row + 1) as nat,
            after,
        ));
        if end >= src.len() {
            assert(parse_from(src@, (end + 1) as nat, (row + 1) as nat, after) == after);
            return (instructions, errors);
        }
        pos = end + 1;
        row = row + 1;
    }
    (instructions, errors)
}

} // verus!
