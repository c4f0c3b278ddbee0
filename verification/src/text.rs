//! Text as sequences of characters: conversion between `String` and
//! `Vec<char>`, decimal numbers, replacement of a pattern and trimming.
//!
//! Every function states its result over `Seq<char>`, the view of `str` and
//! `String`.

use vstd::prelude::*;

verus! {

/// Appends one character to a string. This is `String::push` of std, which
/// documents that the given char is appended to the end of the string; the
/// contract says that and nothing else.
#[verifier::external_body]
fn push_char(s: &mut String, c: char)
    ensures
        final(s)@ == old(s)@.push(c),
{
    s.push(c);
}

/// The characters of a string, in order.
pub fn chars_of(s: &str) -> (v: Vec<char>)
    ensures
        v@ == s@,
{
    let mut v: Vec<char> = Vec::new();
    for c in it: s.chars()
        invariant
            v@ == it.seq().take(it.index() as int),
            it.seq() == s@,
    {
        v.push(c);
    }
    v
}

/// The string made of the given characters, in order.
pub fn string_of(v: &Vec<char>) -> (s: String)
    ensures
        s@ == v@,
{
    let mut s = String::new();
    let mut i: usize = 0;
    while i < v.len()
        invariant
            i <= v.len(),
            s@ == v@.take(i as int),
        decreases v.len() - i,
    {
        push_char(&mut s, v[i]);
        i += 1;
    }
    s
}

/// The text of an optional string.
pub open spec fn opt_text(o: Option<String>) -> Option<Seq<char>> {
    match o {
        Some(s) => Some(s@),
        None => None,
    }
}

/// Whether two texts hold the same characters.
pub fn same_text(a: &str, b: &str) -> (r: bool)
    ensures
        r == (a@ == b@),
{
    let x = chars_of(a);
    let y = chars_of(b);
    if x.len() != y.len() {
        return false;
    }
    let mut i: usize = 0;
    while i < x.len()
        invariant
            i <= x.len(),
            x.len() == y.len(),
            x@ == a@,
            y@ == b@,
            x@.take(i as int) == y@.take(i as int),
        decreases x.len() - i,
    {
        if x[i] != y[i] {
            return false;
        }
        assert(x@.take(i + 1) == x@.take(i as int).push(x@[i as int]));
        assert(y@.take(i + 1) == y@.take(i as int).push(y@[i as int]));
        i += 1;
    }
    assert(x@.take(x.len() as int) == x@);
    assert(y@.take(y.len() as int) == y@);
    true
}

/// `a` followed by `b`.
pub fn joined(a: &str, b: &str) -> (r: String)
    ensures
        r@ == a@ + b@,
{
    let mut r = a.to_owned();
    r.append(b);
    r
}

// ---------------------------------------------------------------------------
// Decimal numbers
// ---------------------------------------------------------------------------

/// The character that stands for the digit `d`, for `d` below ten.
pub open spec fn digit_char(d: nat) -> char {
    (48 + d) as char
}

/// Whether `c` is one of `0` to `9`.
pub open spec fn is_digit(c: char) -> bool {
    '0' <= c <= '9'
}

/// The number that the digit `c` stands for.
pub open spec fn digit_value(c: char) -> nat {
    (c as nat - 48) as nat
}

/// The decimal digits of `n`, most significant first, without leading zeros.
pub open spec fn decimal(n: nat) -> Seq<char>
    decreases n,
{
    if n < 10 {
        seq![digit_char(n)]
    } else {
        decimal(n / 10).push(digit_char(n % 10))
    }
}

/// The decimal text of an integer: a minus sign before the digits of a
/// negative one.
pub open spec fn signed_decimal(i: int) -> Seq<char> {
    if i < 0 {
        seq!['-'] + decimal((-i) as nat)
    } else {
        decimal(i as nat)
    }
}

/// The number that a run of digits stands for; the empty run stands for zero.
pub open spec fn digits_value(s: Seq<char>) -> nat
    decreases s.len(),
{
    if s.len() == 0 {
        0
    } else {
        digits_value(s.drop_last()) * 10 + digit_value(s.last())
    }
}

/// Whether every character of `s` is a digit.
pub open spec fn all_digits(s: Seq<char>) -> bool {
    forall|i: int| 0 <= i < s.len() ==> is_digit(#[trigger] s[i])
}

/// What is left of `s` once one leading plus sign is taken away.
pub open spec fn unsigned_body(s: Seq<char>) -> Seq<char> {
    if s.len() > 0 && s[0] == '+' {
        s.skip(1)
    } else {
        s
    }
}

/// The number below 256 that `s` writes in decimal: an optional plus sign,
/// then one digit or more. `None` for any other text, and for a number that
/// does not fit.
pub open spec fn parsed_u8(s: Seq<char>) -> Option<u8> {
    let body = unsigned_body(s);
    if body.len() > 0 && all_digits(body) && digits_value(body) <= 255 {
        Some(digits_value(body) as u8)
    } else {
        None
    }
}

fn digit_of(d: u8) -> (c: char)
    requires
        d < 10,
    ensures
        c == digit_char(d as nat),
        is_digit(c),
        digit_value(c) == d,
{
    (48u8 + d) as char
}

fn push_decimal(out: &mut Vec<char>, n: u64)
    ensures
        final(out)@ == old(out)@ + decimal(n as nat),
    decreases n,
{
    if n >= 10 {
        push_decimal(out, n / 10);
    }
    out.push(digit_of((n % 10) as u8));
    assert(final(out)@ == old(out)@ + decimal(n as nat));
}

/// The decimal text of `n`.
pub fn u64_text(n: u64) -> (r: String)
    ensures
        r@ == decimal(n as nat),
{
    let mut out: Vec<char> = Vec::new();
    push_decimal(&mut out, n);
    assert(out@ == decimal(n as nat));
    string_of(&out)
}

/// The decimal text of `i`, with a minus sign if it is negative.
pub fn i64_text(i: i64) -> (r: String)
    ensures
        r@ == signed_decimal(i as int),
{
    let mut out: Vec<char> = Vec::new();
    if i < 0 {
        out.push('-');
        let magnitude: u64 = if i == i64::MIN {
            9223372036854775808u64
        } else {
            (-i) as u64
        };
        push_decimal(&mut out, magnitude);
    } else {
        push_decimal(&mut out, i as u64);
    }
    assert(out@ == signed_decimal(i as int));
    string_of(&out)
}

/// A longer run of digits stands for a number that is no smaller than the
/// one its prefix stands for.
proof fn lemma_digits_value_prefix(s: Seq<char>, k: int)
    requires
        0 <= k <= s.len(),
    ensures
        digits_value(s.take(k)) <= digits_value(s),
    decreases s.len(),
{
    if k == s.len() {
        assert(s.take(k) == s);
    } else {
        lemma_digits_value_prefix(s.drop_last(), k);
        assert(s.drop_last().take(k) == s.take(k));
    }
}

/// Reads a number below 256 from its decimal text.
pub fn parse_u8(s: &str) -> (r: Option<u8>)
    ensures
        r == parsed_u8(s@),
{
    let v = chars_of(s);
    let start: usize = if v.len() > 0 && v[0] == '+' {
        1
    } else {
        0
    };
    let ghost body = unsigned_body(s@);
    assert(body == v@.skip(start as int));
    if start == v.len() {
        return None;
    }
    let mut acc: u16 = 0;
    let mut i: usize = start;
    while i < v.len()
        invariant
            start <= i <= v.len(),
            body == v@.skip(start as int),
            body == unsigned_body(s@),
            all_digits(body.take(i - start)),
            acc == digits_value(body.take(i - start)),
            acc <= 255,
        decreases v.len() - i,
    {
        let c = v[i];
        let ghost next = body.take(i - start + 1);
        assert(next.drop_last() == body.take(i - start));
        assert(next.last() == c);
        if !('0' <= c && c <= '9') {
            assert(!is_digit(body[i - start]));
            return None;
        }
        let d: u16 = (c as u32 - 48) as u16;
        let value: u16 = acc * 10 + d;
        assert(value == digits_value(next));
        if value > 255 {
            proof {
                lemma_digits_value_prefix(body, i - start + 1);
            }
            return None;
        }
        assert(all_digits(next)) by {
            assert forall|j: int| 0 <= j < next.len() implies is_digit(#[trigger] next[j]) by {
                if j < i - start {
                    assert(next[j] == body.take(i - start)[j]);
                }
            }
        }
        acc = value;
        i += 1;
    }
    assert(body.take(i - start) == body);
    Some(acc as u8)
}

// ---------------------------------------------------------------------------
// Replacing a pattern
// ---------------------------------------------------------------------------

/// `s` with every occurrence of `pat` replaced by `to`. Occurrences are found
/// from the left and do not overlap. With an empty pattern nothing is
/// replaced.
pub open spec fn replaced(s: Seq<char>, pat: Seq<char>, to: Seq<char>) -> Seq<char>
    decreases s.len(),
{
    if pat.len() == 0 || s.len() == 0 {
        s
    } else if pat.is_prefix_of(s) {
        to + replaced(s.skip(pat.len() as int), pat, to)
    } else {
        seq![s[0]] + replaced(s.skip(1), pat, to)
    }
}

fn occurs_at(s: &Vec<char>, i: usize, pat: &Vec<char>) -> (r: bool)
    requires
        i <= s.len(),
    ensures
        r == pat@.is_prefix_of(s@.skip(i as int)),
{
    if pat.len() > s.len() - i {
        return false;
    }
    let ghost rest = s@.skip(i as int);
    let mut k: usize = 0;
    while k < pat.len()
        invariant
            k <= pat.len(),
            i + pat.len() <= s.len(),
            rest == s@.skip(i as int),
            forall|j: int| 0 <= j < k ==> pat@[j] == rest[j],
        decreases pat.len() - k,
    {
        if s[i + k] != pat[k] {
            assert(rest[k as int] != pat@[k as int]);
            assert(rest.subrange(0, pat@.len() as int)[k as int] != pat@[k as int]);
            return false;
        }
        k += 1;
    }
    assert(pat@ =~= rest.subrange(0, pat@.len() as int));
    true
}

/// Replaces every occurrence of `pat` in `s` by `to`, from the left.
pub fn replace_all(s: &str, pat: &str, to: &str) -> (r: String)
    ensures
        r@ == replaced(s@, pat@, to@),
{
    let sv = chars_of(s);
    let pv = chars_of(pat);
    let tv = chars_of(to);
    if pv.len() == 0 {
        return s.to_owned();
    }
    let mut out: Vec<char> = Vec::new();
    let mut i: usize = 0;
    assert(sv@.skip(0) == sv@);
    assert(out@ + replaced(sv@, pv@, tv@) == replaced(sv@, pv@, tv@));
    while i < sv.len()
        invariant
            i <= sv.len(),
            pv.len() > 0,
            sv@ == s@,
            pv@ == pat@,
            tv@ == to@,
            out@ + replaced(sv@.skip(i as int), pv@, tv@) == replaced(sv@, pv@, tv@),
        decreases sv.len() - i,
    {
        let ghost rest = sv@.skip(i as int);
        if occurs_at(&sv, i, &pv) {
            assert(rest.skip(pv@.len() as int) == sv@.skip(i + pv@.len()));
            let mut k: usize = 0;
            let ghost before = out@;
            while k < tv.len()
                invariant
                    k <= tv.len(),
                    out@ == before + tv@.take(k as int),
                decreases tv.len() - k,
            {
                out.push(tv[k]);
                assert(tv@.take(k + 1) == tv@.take(k as int).push(tv@[k as int]));
                k += 1;
            }
            assert(tv@.take(tv.len() as int) == tv@);
            assert(out@ + replaced(sv@.skip(i + pv@.len()), pv@, tv@) == before + (tv@ + replaced(
                rest.skip(pv@.len() as int),
                pv@,
                tv@,
            )));
            i += pv.len();
        } else {
            assert(rest.skip(1) == sv@.skip(i + 1));
            assert(rest[0] == sv@[i as int]);
            let ghost before = out@;
            out.push(sv[i]);
            assert(out@ + replaced(sv@.skip(i + 1), pv@, tv@) == before + (seq![rest[0]]
                + replaced(rest.skip(1), pv@, tv@)));
            i += 1;
        }
    }
    assert(out@ + Seq::<char>::empty() == out@);
    string_of(&out)
}

// ---------------------------------------------------------------------------
// Trimming
// ---------------------------------------------------------------------------

/// Whether `c` is white space: the characters with the Unicode property
/// `White_Space`.
pub open spec fn is_whitespace(c: char) -> bool {
    let n = c as u32;
    ||| 0x09 <= n <= 0x0D
    ||| n == 0x20
    ||| n == 0x85
    ||| n == 0xA0
    ||| n == 0x1680
    ||| 0x2000 <= n <= 0x200A
    ||| n == 0x2028
    ||| n == 0x2029
    ||| n == 0x202F
    ||| n == 0x205F
    ||| n == 0x3000
}

/// `s` without its leading white space.
pub open spec fn trimmed_start(s: Seq<char>) -> Seq<char>
    decreases s.len(),
{
    if s.len() > 0 && is_whitespace(s[0]) {
        trimmed_start(s.skip(1))
    } else {
        s
    }
}

/// `s` without its trailing white space.
pub open spec fn trimmed_end(s: Seq<char>) -> Seq<char>
    decreases s.len(),
{
    if s.len() > 0 && is_whitespace(s.last()) {
        trimmed_end(s.drop_last())
    } else {
        s
    }
}

/// `s` without its leading and trailing white space.
pub open spec fn trimmed(s: Seq<char>) -> Seq<char> {
    trimmed_end(trimmed_start(s))
}

fn whitespace(c: char) -> (r: bool)
    ensures
        r == is_whitespace(c),
{
    let n: u32 = c as u32;
    (0x09 <= n && n <= 0x0D) || n == 0x20 || n == 0x85 || n == 0xA0 || n == 0x1680 || (0x2000 <= n
        && n <= 0x200A) || n == 0x2028 || n == 0x2029 || n == 0x202F || n == 0x205F || n == 0x3000
}

/// Removes leading and trailing white space.
pub fn trim(s: &str) -> (r: String)
    ensures
        r@ == trimmed(s@),
{
    let v = chars_of(s);
    let mut start: usize = 0;
    assert(v@.skip(0) == v@);
    while start < v.len() && whitespace(v[start])
        invariant
            start <= v.len(),
            trimmed_start(v@.skip(start as int)) == trimmed_start(v@),
        decreases v.len() - start,
    {
        assert(v@.skip(start as int).skip(1) == v@.skip(start + 1));
        start += 1;
    }
    assert(trimmed_start(v@) == v@.skip(start as int));
    let ghost body = v@.skip(start as int);
    let mut end: usize = v.len();
    assert(body.take(end - start) == body);
    while end > start && whitespace(v[end - 1])
        invariant
            start <= end <= v.len(),
            body == v@.skip(start as int),
            trimmed_end(body.take(end - start)) == trimmed_end(body),
        decreases end,
    {
        assert(body.take(end - start).drop_last() == body.take(end - start - 1));
        end -= 1;
    }
    assert(trimmed_end(body) == body.take(end - start));
    let mut out: Vec<char> = Vec::new();
    let mut i: usize = start;
    while i < end
        invariant
            start <= i <= end <= v.len(),
            body == v@.skip(start as int),
            out@ == body.take(i - start),
        decreases end - i,
    {
        out.push(v[i]);
        assert(body.take(i - start + 1) == body.take(i - start).push(v@[i as int]));
        i += 1;
    }
    string_of(&out)
}

// ---------------------------------------------------------------------------
// Laws of decimal numbers
// ---------------------------------------------------------------------------

/// The decimal text of a number is made of digits and stands for that
/// number.
pub proof fn law_decimal_stands_for_its_number(n: nat)
    ensures
        decimal(n).len() > 0,
        all_digits(decimal(n)),
        digits_value(decimal(n)) == n,
    decreases n,
{
    if n < 10 {
        assert(decimal(n).drop_last() == Seq::<char>::empty());
        assert(digits_value(Seq::<char>::empty()) == 0);
        assert(decimal(n).last() == digit_char(n));
    } else {
        law_decimal_stands_for_its_number(n / 10);
        let head = decimal(n / 10);
        let last = digit_char(n % 10);
        assert(decimal(n).drop_last() == head);
        assert(decimal(n).last() == last);
        assert forall|i: int| 0 <= i < decimal(n).len() implies is_digit(#[trigger] decimal(n)[i]) by {
            if i < head.len() {
                assert(decimal(n)[i] == head[i]);
            }
        }
    }
}

/// Reading the decimal text of a number below 256 gives the number back.
pub proof fn law_parse_reads_what_decimal_writes(n: u8)
    ensures
        parsed_u8(decimal(n as nat)) == Some(n),
{
    law_decimal_stands_for_its_number(n as nat);
    assert(is_digit(decimal(n as nat)[0]));
}

} // verus!
