//! Character-level string helpers.
use vstd::prelude::*;

verus! {

/// Relies on `String::push`: appends one character.
#[verifier::external_body]
pub(crate) fn push_char(s: &mut String, c: char)
    ensures
        final(s)@ == old(s)@.push(c),
{
    s.push(c)
}

/// `s` with every occurrence of `from` replaced by `to`, scanning left to right
/// without overlap.
pub open spec fn replaced(s: Seq<char>, from: Seq<char>, to: Seq<char>) -> Seq<char>
    decreases s.len(),
{
    if from.len() == 0 || s.len() < from.len() {
        s
    } else if s.subrange(0, from.len() as int) == from {
        to + replaced(s.subrange(from.len() as int, s.len() as int), from, to)
    } else {
        seq![s[0]] + replaced(s.drop_first(), from, to)
    }
}

/// Relies on `str::replace`: replaces every non-overlapping occurrence of a
/// non-empty pattern, leftmost first.
#[verifier::external_body]
pub(crate) fn replace_all(s: &str, from: &str, to: &str) -> (r: String)
    requires
        from@.len() > 0,
    ensures
        r@ == replaced(s@, from@, to@),
{
    s.replace(from, to)
}

/// The decimal digit `d`.
pub open spec fn digit_char(d: nat) -> char {
    if d == 0 { '0' } else if d == 1 { '1' } else if d == 2 { '2' } else if d == 3 { '3' } else if d == 4 { '4' }
    else if d == 5 { '5' } else if d == 6 { '6' } else if d == 7 { '7' } else if d == 8 { '8' } else { '9' }
}

/// The decimal representation of `n`, without leading zeros.
pub open spec fn decimal_of(n: nat) -> Seq<char>
    decreases n,
{
    if n < 10 {
        seq![digit_char(n)]
    } else {
        decimal_of(n / 10).push(digit_char(n % 10))
    }
}

fn digit(d: u64) -> (c: char)
    requires
        d < 10,
    ensures
        c == digit_char(d as nat),
{
    if d == 0 { '0' } else if d == 1 { '1' } else if d == 2 { '2' } else if d == 3 { '3' } else if d == 4 { '4' }
    else if d == 5 { '5' } else if d == 6 { '6' } else if d == 7 { '7' } else if d == 8 { '8' } else { '9' }
}

/// The decimal representation of `n`.
pub fn decimal(n: u64) -> (r: String)
    ensures
        r@ == decimal_of(n as nat),
    decreases n,
{
    if n < 10 {
        let mut s = String::new();
        push_char(&mut s, digit(n));
        assert(s@ =~= seq![digit_char(n as nat)]);
        s
    } else {
        let mut s = decimal(n / 10);
        push_char(&mut s, digit(n % 10));
        s
    }
}

/// `a` followed by `b`.
pub fn joined(a: &str, b: &str) -> (r: String)
    ensures
        r@ == a@ + b@,
{
    let mut r = a.to_string();
    r.append(b);
    r
}

/// `s` with `c` inserted before position `k`.
pub open spec fn inserted(s: Seq<char>, k: int, c: char) -> Seq<char> {
    s.subrange(0, k) + seq![c] + s.subrange(k, s.len() as int)
}

/// `s` without the character at position `k`.
pub open spec fn removed(s: Seq<char>, k: int) -> Seq<char> {
    s.subrange(0, k) + s.subrange(k + 1, s.len() as int)
}

/// `s` with `c` inserted before character position `k`.
pub fn insert_char_at(s: &String, k: usize, c: char) -> (r: String)
    requires
        k <= s@.len(),
    ensures
        r@ == inserted(s@, k as int, c),
{
    let n = s.as_str().unicode_len();
    let mut r = s.as_str().substring_char(0, k).to_string();
    push_char(&mut r, c);
    r.append(s.as_str().substring_char(k, n));
    r
}

/// `s` without the character at position `k`.
pub fn remove_char_at(s: &String, k: usize) -> (r: String)
    requires
        k < s@.len(),
    ensures
        r@ == removed(s@, k as int),
{
    let n = s.as_str().unicode_len();
    let mut r = s.as_str().substring_char(0, k).to_string();
    r.append(s.as_str().substring_char(k + 1, n));
    r
}

} // verus!
