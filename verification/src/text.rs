//! Byte-string helpers shared by all stages: literals, comparison, scanning,
//! and decimal numbers.
use vstd::prelude::*;
use vstd::slice::*;
use vstd::string::*;

verus! {

/// The bytes of a string literal.
pub open spec fn lit(s: &str) -> Seq<u8> {
    s.spec_bytes()
}

/// Appends the bytes of `s` to `out`.
pub fn push_lit(out: &mut Vec<u8>, s: &str)
    ensures
        final(out)@ == old(out)@ + lit(s),
{
    out.extend_from_slice(s.as_bytes());
}

/// Appends `s` to `out`.
pub fn push_all(out: &mut Vec<u8>, s: &[u8])
    ensures
        final(out)@ == old(out)@ + s@,
{
    out.extend_from_slice(s);
}

/// An owned copy of the bytes of `s`.
pub fn lit_vec(s: &str) -> (r: Vec<u8>)
    ensures
        r@ == lit(s),
{
    slice_to_vec(s.as_bytes())
}

/// An owned copy of `a`.
pub fn to_vec(a: &[u8]) -> (r: Vec<u8>)
    ensures
        r@ == a@,
{
    slice_to_vec(a)
}

/// An owned copy of `a[from..to]`.
pub fn sub_vec(a: &[u8], from: usize, to: usize) -> (r: Vec<u8>)
    requires
        from <= to <= a@.len(),
    ensures
        r@ == a@.subrange(from as int, to as int),
{
    slice_to_vec(slice_subrange(a, from, to))
}

/// Whether two byte strings hold the same bytes.
pub fn bytes_eq(a: &[u8], b: &[u8]) -> (r: bool)
    ensures
        r == (a@ == b@),
{
    if a.len() != b.len() {
        return false;
    }
    let mut i: usize = 0;
    while i < a.len()
        invariant
            a@.len() == b@.len(),
            i <= a@.len(),
            forall|k: int| 0 <= k < i ==> a@[k] == b@[k],
        decreases a@.len() - i,
    {
        if a[i] != b[i] {
            return false;
        }
        i = i + 1;
    }
    assert(a@ =~= b@);
    true
}

/// Whether `a` holds exactly the bytes of the literal `s`.
pub fn is_lit(a: &[u8], s: &str) -> (r: bool)
    ensures
        r == (a@ == lit(s)),
{
    bytes_eq(a, s.as_bytes())
}

/// The line feed, which ends a line.
pub const NEWLINE: u8 = 10;

/// The space.
pub const SPACE: u8 = 32;

/// The double quote, which starts and ends a string literal.
pub const QUOTE: u8 = 34;

pub const LEFT_PAREN: u8 = 40;

pub const RIGHT_PAREN: u8 = 41;

pub const STAR: u8 = 42;

pub const PLUS: u8 = 43;

pub const MINUS: u8 = 45;

pub const SLASH: u8 = 47;

/// The digit 0: the digits follow it in their order.
pub const ZERO: u8 = 48;

pub const SEMICOLON: u8 = 59;

pub const EQUALS: u8 = 61;

pub const AT: u8 = 64;

pub const UNDERSCORE: u8 = 95;

/// ASCII whitespace: tab, line feed, vertical tab, form feed, carriage
/// return and space.
pub open spec fn is_space(b: u8) -> bool {
    (9 <= b <= 13) || b == 32
}

/// A decimal digit.
pub open spec fn is_digit(b: u8) -> bool {
    48 <= b <= 57
}

/// A letter of the ASCII alphabet.
pub open spec fn is_alpha(b: u8) -> bool {
    (65 <= b <= 90) || (97 <= b <= 122)
}

/// The classes of bytes that a scan can run over.
#[derive(Clone, Copy, Debug, PartialEq, Eq)]
pub enum ByteClass {
    /// ASCII whitespace.
    Space,
    /// Anything but ASCII whitespace.
    NonSpace,
    /// A decimal digit.
    Digit,
    /// A letter, a digit or an underscore.
    Word,
    /// Anything but a double quote.
    NotQuote,
    /// Anything but a line feed.
    NotNewline,
}

impl ByteClass {
    /// Whether the byte `b` belongs to the class.
    pub open spec fn has(self, b: u8) -> bool {
        match self {
            ByteClass::Space => is_space(b),
            ByteClass::NonSpace => !is_space(b),
            ByteClass::Digit => is_digit(b),
            ByteClass::Word => is_alpha(b) || is_digit(b) || b == UNDERSCORE,
            ByteClass::NotQuote => b != QUOTE,
            ByteClass::NotNewline => b != NEWLINE,
        }
    }

    /// Whether `b` belongs to the class.
    pub fn contains(self, b: u8) -> (r: bool)
        ensures
            r == self.has(b),
    {
        match self {
            ByteClass::Space => (9 <= b && b <= 13) || b == 32,
            ByteClass::NonSpace => !((9 <= b && b <= 13) || b == 32),
            ByteClass::Digit => 48 <= b && b <= 57,
            ByteClass::Word => (65 <= b && b <= 90) || (97 <= b && b <= 122) || (48 <= b && b
                <= 57) || b == 95,
            ByteClass::NotQuote => b != QUOTE,
            ByteClass::NotNewline => b != NEWLINE,
        }
    }
}

/// The first position at or after `pos` whose byte is not in `class`, or the
/// length of `s` if there is none.
pub open spec fn run_end(s: Seq<u8>, pos: nat, class: ByteClass) -> nat
    decreases s.len() - pos,
{
    if pos < s.len() && class.has(s[pos as int]) {
        run_end(s, pos + 1, class)
    } else {
        pos
    }
}

/// A run ends within the text, holds bytes of its class only, and is not
/// followed by one.
pub proof fn lemma_run_end(s: Seq<u8>, pos: nat, class: ByteClass)
    requires
        pos <= s.len(),
    ensures
        pos <= run_end(s, pos, class) <= s.len(),
        forall|k: int| pos <= k < run_end(s, pos, class) ==> class.has(#[trigger] s[k]),
        run_end(s, pos, class) < s.len() ==> !class.has(s[run_end(s, pos, class) as int]),
    decreases s.len() - pos,
{
    if pos < s.len() && class.has(s[pos as int]) {
        lemma_run_end(s, pos + 1, class);
    }
}

/// Scans forward from `pos` over the bytes of `class`.
pub fn scan(s: &[u8], pos: usize, class: ByteClass) -> (end: usize)
    requires
        pos <= s@.len(),
    ensures
        end == run_end(s@, pos as nat, class),
        pos <= end <= s@.len(),
{
    let mut i: usize = pos;
    while i < s.len() && class.contains(s[i])
        invariant
            pos <= i <= s@.len(),
            run_end(s@, i as nat, class) == run_end(s@, pos as nat, class),
        decreases s@.len() - i,
    {
        i = i + 1;
    }
    i
}

/// The first position at or after `pos` where the two bytes `a`, `b` stand,
/// or `None` if they do not occur.
pub open spec fn find_pair(s: Seq<u8>, pos: nat, a: u8, b: u8) -> Option<nat>
    decreases s.len() - pos,
{
    if pos + 1 >= s.len() {
        None
    } else if s[pos as int] == a && s[(pos + 1) as int] == b {
        Some(pos)
    } else {
        find_pair(s, pos + 1, a, b)
    }
}

/// Searches for the two bytes `a`, `b` from `pos` on.
pub fn search_pair(s: &[u8], pos: usize, a: u8, b: u8) -> (r: Option<usize>)
    requires
        pos <= s@.len(),
    ensures
        match r {
            Some(p) => find_pair(s@, pos as nat, a, b) == Some(p as nat) && pos <= p && p + 1
                < s@.len(),
            None => find_pair(s@, pos as nat, a, b).is_none(),
        },
{
    let mut i: usize = pos;
    while i < s.len() && i + 1 < s.len()
        invariant
            pos <= i <= s@.len(),
            find_pair(s@, i as nat, a, b) == find_pair(s@, pos as nat, a, b),
        decreases s@.len() - i,
    {
        if s[i] == a && s[i + 1] == b {
            return Some(i);
        }
        i = i + 1;
    }
    None
}

/// The first position at or after `pos` where the byte `a` stands.
pub open spec fn find_byte(s: Seq<u8>, pos: nat, a: u8) -> Option<nat>
    decreases s.len() - pos,
{
    if pos >= s.len() {
        None
    } else if s[pos as int] == a {
        Some(pos)
    } else {
        find_byte(s, pos + 1, a)
    }
}

/// Searches for the byte `a` from `pos` on.
pub fn search_byte(s: &[u8], pos: usize, a: u8) -> (r: Option<usize>)
    requires
        pos <= s@.len(),
    ensures
        match r {
            Some(p) => find_byte(s@, pos as nat, a) == Some(p as nat) && pos <= p < s@.len(),
            None => find_byte(s@, pos as nat, a).is_none(),
        },
{
    let mut i: usize = pos;
    while i < s.len()
        invariant
            pos <= i <= s@.len(),
            find_byte(s@, i as nat, a) == find_byte(s@, pos as nat, a),
        decreases s@.len() - i,
    {
        if s[i] == a {
            return Some(i);
        }
        i = i + 1;
    }
    None
}

/// The decimal digits of `n`, most significant first.
pub open spec fn dec(n: nat) -> Seq<u8>
    decreases n,
{
    if n < 10 {
        seq![(48 + n) as u8]
    } else {
        dec(n / 10).push((48 + n % 10) as u8)
    }
}

/// Appends `n` in decimal to `out`.
pub fn push_dec(out: &mut Vec<u8>, n: u64)
    ensures
        final(out)@ == old(out)@ + dec(n as nat),
    decreases n,
{
    if n < 10 {
        out.push(48 + n as u8);
        assert(final(out)@ =~= old(out)@ + dec(n as nat));
    } else {
        push_dec(out, n / 10);
        out.push(48 + (n % 10) as u8);
        assert(final(out)@ =~= old(out)@ + dec(n as nat));
    }
}

/// Appends `n` in decimal to `out`, for a number wider than a machine word.
pub fn push_dec_wide(out: &mut Vec<u8>, n: u128)
    ensures
        final(out)@ == old(out)@ + dec(n as nat),
    decreases n,
{
    if n < 10 {
        out.push(48 + n as u8);
        assert(final(out)@ =~= old(out)@ + dec(n as nat));
    } else {
        push_dec_wide(out, n / 10);
        out.push(48 + (n % 10) as u8);
        assert(final(out)@ =~= old(out)@ + dec(n as nat));
    }
}

/// The number that a string of decimal digits denotes.
pub open spec fn dec_value(s: Seq<u8>) -> nat
    decreases s.len(),
{
    if s.len() == 0 {
        0
    } else {
        dec_value(s.drop_last()) * 10 + (s.last() - 48) as nat
    }
}

/// Whether `s` holds decimal digits only.
pub open spec fn all_digits(s: Seq<u8>) -> bool {
    forall|i: int| 0 <= i < s.len() ==> is_digit(#[trigger] s[i])
}

/// `dec` writes digits only, and `dec_value` reads back the number written.
pub proof fn lemma_dec_round_trip(n: nat)
    ensures
        all_digits(dec(n)),
        dec(n).len() >= 1,
        dec_value(dec(n)) == n,
    decreases n,
{
    if n < 10 {
        assert(dec(n).drop_last() =~= Seq::<u8>::empty());
        assert(dec_value(dec(n).drop_last()) == 0);
    } else {
        lemma_dec_round_trip(n / 10);
        assert(dec(n).drop_last() =~= dec(n / 10));
    }
}

/// Two numbers with the same decimal digits are the same number.
pub proof fn lemma_dec_injective(a: nat, b: nat)
    requires
        dec(a) == dec(b),
    ensures
        a == b,
{
    lemma_dec_round_trip(a);
    lemma_dec_round_trip(b);
}

/// Appending a digit never makes the value smaller.
pub proof fn lemma_dec_value_prefix(s: Seq<u8>, k: int)
    requires
        0 <= k <= s.len(),
        all_digits(s),
    ensures
        dec_value(s.subrange(0, k)) <= dec_value(s),
    decreases s.len() - k,
{
    if k < s.len() {
        lemma_dec_value_prefix(s, k + 1);
        let t = s.subrange(0, k + 1);
        assert(t.drop_last() =~= s.subrange(0, k));
        assert(is_digit(s[k]));
    } else {
        assert(s.subrange(0, k) =~= s);
    }
}

/// What a string of digits is worth when it is not empty and its value is at
/// most `max`.
pub open spec fn digits_value(s: Seq<u8>, max: nat) -> Option<nat> {
    if s.len() > 0 && all_digits(s) && dec_value(s) <= max {
        Some(dec_value(s))
    } else {
        None
    }
}

/// Reads an unsigned decimal number of at most `max`.
pub fn parse_digits(s: &[u8], max: u64) -> (r: Option<u64>)
    ensures
        match r {
            Some(v) => digits_value(s@, max as nat) == Some(v as nat),
            None => digits_value(s@, max as nat).is_none(),
        },
{
    if s.len() == 0 {
        return None;
    }
    let mut acc: u64 = 0;
    let mut i: usize = 0;
    while i < s.len()
        invariant
            i <= s@.len(),
            acc <= max,
            acc == dec_value(s@.subrange(0, i as int)),
            forall|k: int| 0 <= k < i ==> is_digit(#[trigger] s@[k]),
        decreases s@.len() - i,
    {
        let b: u8 = s[i];
        if !(48 <= b && b <= 57) {
            return None;
        }
        let d: u64 = (b - 48) as u64;
        proof {
            let t = s@.subrange(0, i + 1);
            assert(t.drop_last() =~= s@.subrange(0, i as int));
            assert(dec_value(t) == acc * 10 + d);
        }
        if d > max || acc > (max - d) / 10 {
            proof {
                if all_digits(s@) {
                    lemma_dec_value_prefix(s@, i + 1);
                }
            }
            return None;
        }
        acc = acc * 10 + d;
        i = i + 1;
    }
    assert(s@.subrange(0, i as int) =~= s@);
    Some(acc)
}

/// The value of an unsigned decimal number of at most `max`, before which a
/// `+` may stand.
pub open spec fn unsigned_value(s: Seq<u8>, max: nat) -> Option<nat> {
    if s.len() > 0 && s[0] == PLUS {
        digits_value(s.subrange(1, s.len() as int), max)
    } else {
        digits_value(s, max)
    }
}

/// Reads an unsigned decimal number of at most `max`, before which a `+` may
/// stand.
pub fn parse_unsigned(s: &[u8], max: u64) -> (r: Option<u64>)
    ensures
        match r {
            Some(v) => unsigned_value(s@, max as nat) == Some(v as nat),
            None => unsigned_value(s@, max as nat).is_none(),
        },
{
    if s.len() > 0 && s[0] == PLUS {
        parse_digits(slice_subrange(s, 1, s.len()), max)
    } else {
        parse_digits(s, max)
    }
}

/// Where the word at or after `pos` starts: behind the whitespace there.
pub open spec fn word_start(s: Seq<u8>, pos: nat) -> nat {
    run_end(s, pos, ByteClass::Space)
}

/// Where the word at or after `pos` ends.
pub open spec fn word_end(s: Seq<u8>, pos: nat) -> nat {
    run_end(s, word_start(s, pos), ByteClass::NonSpace)
}

/// Whether a word stands at or after `pos`.
pub open spec fn has_word(s: Seq<u8>, pos: nat) -> bool {
    word_start(s, pos) < s.len()
}

/// The word at or after `pos`: the bytes up to the next whitespace.
pub open spec fn word(s: Seq<u8>, pos: nat) -> Seq<u8> {
    s.subrange(word_start(s, pos) as int, word_end(s, pos) as int)
}

/// Finds the word at or after `pos`: where it starts and where it ends.
pub fn next_word(s: &[u8], pos: usize) -> (r: Option<(usize, usize)>)
    requires
        pos <= s@.len(),
    ensures
        match r {
            Some(w) => has_word(s@, pos as nat) && w.0 == word_start(s@, pos as nat) && w.1
                == word_end(s@, pos as nat) && pos <= w.0 < w.1 <= s@.len(),
            None => !has_word(s@, pos as nat),
        },
{
    let start = scan(s, pos, ByteClass::Space);
    if start >= s.len() {
        return None;
    }
    let end = scan(s, start, ByteClass::NonSpace);
    proof {
        lemma_run_end(s@, pos as nat, ByteClass::Space);
        lemma_run_end(s@, (start + 1) as nat, ByteClass::NonSpace);
    }
    Some((start, end))
}

/// The value of an optionally signed decimal number: a sign, `+` or `-`, may
/// stand before the digits.
pub open spec fn signed_value(s: Seq<u8>) -> Option<int> {
    if s.len() > 0 && s[0] == MINUS {
        if s.len() > 1 && all_digits(s.subrange(1, s.len() as int)) {
            Some(-(dec_value(s.subrange(1, s.len() as int)) as int))
        } else {
            None
        }
    } else if s.len() > 0 && s[0] == PLUS {
        if s.len() > 1 && all_digits(s.subrange(1, s.len() as int)) {
            Some(dec_value(s.subrange(1, s.len() as int)) as int)
        } else {
            None
        }
    } else if s.len() > 0 && all_digits(s) {
        Some(dec_value(s) as int)
    } else {
        None
    }
}

/// Reads an optionally signed decimal number between -32768 and 32767.
pub fn parse_i16(s: &[u8]) -> (r: Option<i16>)
    ensures
        match r {
            Some(v) => signed_value(s@) == Some(v as int),
            None => match signed_value(s@) {
                Some(v) => v < -32768 || v > 32767,
                None => true,
            },
        },
{
    if s.len() > 0 && s[0] == MINUS {
        match parse_digits(slice_subrange(s, 1, s.len()), 32768) {
            Some(v) => Some((0 - (v as i32)) as i16),
            None => None,
        }
    } else if s.len() > 0 && s[0] == PLUS {
        match parse_digits(slice_subrange(s, 1, s.len()), 32767) {
            Some(v) => Some(v as i16),
            None => None,
        }
    } else {
        match parse_digits(s, 32767) {
            Some(v) => Some(v as i16),
            None => None,
        }
    }
}

/// Where `s` ends when the whitespace at its end is left out, looking at
/// its first `n` bytes.
pub open spec fn trimmed_end(s: Seq<u8>, n: nat) -> nat
    decreases n,
{
    if n > 0 && n <= s.len() && is_space(s[n - 1]) {
        trimmed_end(s, (n - 1) as nat)
    } else {
        n
    }
}

/// `s` without the whitespace at its start and at its end.
pub open spec fn trimmed(s: Seq<u8>) -> Seq<u8> {
    if word_start(s, 0) >= s.len() {
        Seq::empty()
    } else {
        s.subrange(word_start(s, 0) as int, trimmed_end(s, s.len()) as int)
    }
}

/// Cuts the whitespace at the start and at the end of `s` off.
pub fn trim(s: &[u8]) -> (r: &[u8])
    ensures
        r@ == trimmed(s@),
{
    let start = scan(s, 0, ByteClass::Space);
    if start >= s.len() {
        return slice_subrange(s, 0, 0);
    }
    proof {
        lemma_run_end(s@, 0, ByteClass::Space);
    }
    let mut end: usize = s.len();
    while end > start + 1 && ByteClass::Space.contains(s[end - 1])
        invariant
            start < end <= s@.len(),
            start == word_start(s@, 0),
            !is_space(s@[start as int]),
            trimmed_end(s@, end as nat) == trimmed_end(s@, s@.len()),
        decreases end,
    {
        end = end - 1;
    }
    slice_subrange(s, start, end)
}

/// The first `n` bytes of `s` without the spaces among them.
pub open spec fn without_spaces(s: Seq<u8>, n: nat) -> Seq<u8>
    decreases n,
{
    if n == 0 || n > s.len() {
        Seq::empty()
    } else if s[n - 1] == SPACE {
        without_spaces(s, (n - 1) as nat)
    } else {
        without_spaces(s, (n - 1) as nat).push(s[n - 1])
    }
}

/// Takes the spaces out of `s`.
pub fn strip_spaces(s: &[u8]) -> (r: Vec<u8>)
    ensures
        r@ == without_spaces(s@, s@.len()),
{
    let mut out: Vec<u8> = Vec::new();
    let mut i: usize = 0;
    while i < s.len()
        invariant
            i <= s@.len(),
            out@ == without_spaces(s@, i as nat),
        decreases s@.len() - i,
    {
        if s[i] != SPACE {
            out.push(s[i]);
        }
        i = i + 1;
    }
    out
}

/// The lowest `width` bits of `n` as digits `0` and `1`, the highest first.
pub open spec fn bits(n: nat, width: nat) -> Seq<u8>
    decreases width,
{
    if width == 0 {
        Seq::empty()
    } else {
        bits(n / 2, (width - 1) as nat).push((48 + n % 2) as u8)
    }
}

/// `bits` writes `width` digits, each `0` or `1`.
pub proof fn lemma_bits(n: nat, width: nat)
    ensures
        bits(n, width).len() == width,
        forall|i: int| 0 <= i < width ==> (#[trigger] bits(n, width)[i]) == 48 || bits(n, width)[i]
            == 49,
    decreases width,
{
    if width > 0 {
        lemma_bits(n / 2, (width - 1) as nat);
    }
}

/// Appends the lowest `width` bits of `n` to `out`.
pub fn push_bits(out: &mut Vec<u8>, n: u16, width: u8)
    ensures
        final(out)@ == old(out)@ + bits(n as nat, width as nat),
    decreases width,
{
    if width == 0 {
        assert(final(out)@ =~= old(out)@ + bits(n as nat, 0));
    } else {
        push_bits(out, n / 2, width - 1);
        out.push(48 + (n % 2) as u8);
        assert(final(out)@ =~= old(out)@ + bits(n as nat, width as nat));
    }
}

} // verus!
