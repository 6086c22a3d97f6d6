//! Half-open byte ranges into a source text.
use vstd::prelude::*;

verus! {

/// A position in a source: the number of bytes before it.
pub type BytePos = usize;

/// The byte range `[base, base + len)` of a source text.
#[derive(Debug, Copy, Clone, Eq, PartialEq, Structural)]
pub struct Span {
    pub base: BytePos,
    pub len: usize,
}

impl Span {
    /// The start of the range.
    pub open spec fn low(self) -> int {
        self.base as int
    }

    /// The end of the range, one past its last byte.
    pub open spec fn high(self) -> int {
        self.base + self.len
    }

    /// The end of the range is a position that a machine word holds.
    pub open spec fn valid(self) -> bool {
        self.base + self.len <= usize::MAX
    }

    /// The range `[lo, hi)` as a span, for `lo <= hi`.
    pub open spec fn between(lo: int, hi: int) -> Span {
        Span { base: lo as usize, len: (hi - lo) as usize }
    }

    /// The span `[lo, hi)`.
    pub fn new(lo: BytePos, hi: BytePos) -> (s: Span)
        requires
            lo <= hi,
        ensures
            s == Span::between(lo as int, hi as int),
            s.low() == lo,
            s.high() == hi,
            s.valid(),
    {
        Span { base: lo, len: hi - lo }
    }

    /// The span of `len` bytes that starts at `base`.
    pub fn from_len(base: BytePos, len: usize) -> (s: Span)
        ensures
            s == (Span { base, len }),
    {
        Span { base, len }
    }

    /// The same span with its start moved to `lo`.
    pub fn with_lo(&self, lo: BytePos) -> (s: Span)
        requires
            self.valid(),
            lo <= self.high(),
        ensures
            s == Span::between(lo as int, self.high()),
            s.low() == lo,
            s.high() == self.high(),
            s.valid(),
    {
        Span::new(lo, self.hi())
    }

    /// The same span with its end moved to `hi`.
    pub fn with_hi(&self, hi: BytePos) -> (s: Span)
        requires
            self.low() <= hi,
        ensures
            s == Span::between(self.low(), hi as int),
            s.low() == self.low(),
            s.high() == hi,
            s.valid(),
    {
        Span::new(self.lo(), hi)
    }

    /// The start of the range.
    pub fn lo(&self) -> (r: BytePos)
        ensures
            r == self.low(),
    {
        self.base
    }

    /// The end of the range, one past its last byte.
    pub fn hi(&self) -> (r: BytePos)
        requires
            self.valid(),
        ensures
            r == self.high(),
    {
        self.base + self.len
    }
}

} // verus!
