//! The memory segments of the stack machine.
use vstd::prelude::*;

use crate::text::{is_lit, lit};

verus! {

/// The memory segments of the stack machine.
#[derive(Debug, Clone, Copy, PartialEq, Eq, Structural)]
pub enum Segment {
    /// The local variables of the running function.
    Local,
    /// The arguments of the running function.
    Argument,
    /// The static variables of the unit.
    Static,
    /// The constants: not a part of memory, only a `push` can name it.
    Constant,
    /// The fields of the current object.
    This,
    /// The elements of the current array.
    That,
    /// The two registers that hold the addresses of `this` and `that`.
    Pointer,
    /// Eight registers for temporary values.
    Temp,
}

/// The spelling of a segment in stack-machine code.
pub open spec fn segment_text(segment: Segment) -> Seq<u8> {
    match segment {
        Segment::Local => lit("local"),
        Segment::Argument => lit("argument"),
        Segment::Static => lit("static"),
        Segment::Constant => lit("constant"),
        Segment::This => lit("this"),
        Segment::That => lit("that"),
        Segment::Pointer => lit("pointer"),
        Segment::Temp => lit("temp"),
    }
}

/// The segment that `s` spells, if it spells one.
pub open spec fn segment_named(s: Seq<u8>) -> Option<Segment> {
    if s == lit("local") {
        Some(Segment::Local)
    } else if s == lit("argument") {
        Some(Segment::Argument)
    } else if s == lit("static") {
        Some(Segment::Static)
    } else if s == lit("constant") {
        Some(Segment::Constant)
    } else if s == lit("this") {
        Some(Segment::This)
    } else if s == lit("that") {
        Some(Segment::That)
    } else if s == lit("pointer") {
        Some(Segment::Pointer)
    } else if s == lit("temp") {
        Some(Segment::Temp)
    } else {
        None
    }
}

impl Segment {
    /// The spelling of the segment.
    pub fn name(&self) -> (r: &'static str)
        ensures
            lit(r) == segment_text(*self),
    {
        match self {
            Segment::Local => "local",
            Segment::Argument => "argument",
            Segment::Static => "static",
            Segment::Constant => "constant",
            Segment::This => "this",
            Segment::That => "that",
            Segment::Pointer => "pointer",
            Segment::Temp => "temp",
        }
    }

    /// The segment that `s` spells, if it spells one.
    pub fn try_from(s: &[u8]) -> (r: Option<Segment>)
        ensures
            r == segment_named(s@),
    {
        if is_lit(s, "local") {
            Some(Segment::Local)
        } else if is_lit(s, "argument") {
            Some(Segment::Argument)
        } else if is_lit(s, "static") {
            Some(Segment::Static)
        } else if is_lit(s, "constant") {
            Some(Segment::Constant)
        } else if is_lit(s, "this") {
            Some(Segment::This)
        } else if is_lit(s, "that") {
            Some(Segment::That)
        } else if is_lit(s, "pointer") {
            Some(Segment::Pointer)
        } else if is_lit(s, "temp") {
            Some(Segment::Temp)
        } else {
            None
        }
    }
}

} // verus!
