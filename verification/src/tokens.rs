use vstd::prelude::*;

use crate::digits::{
    all_digits, dec_value, digit_val, is_digit, lemma_dec_value_prefix_le,
};

verus! {

/// Whether a character separates tokens: the Unicode white-space
/// characters, the fixed set `str::split_whitespace` splits on.
pub open spec fn is_space(c: char) -> bool {
    let v = c as int;
    ||| v == 0x20
    ||| 0x9 <= v <= 0xd
    ||| v == 0x85
    ||| v == 0xa0
    ||| v == 0x1680
    ||| 0x2000 <= v <= 0x200a
    ||| v == 0x2028
    ||| v == 0x2029
    ||| v == 0x202f
    ||| v == 0x205f
    ||| v == 0x3000
}

/// The first position at or after `i` that does not hold whitespace.
pub open spec fn skip_ws(s: Seq<char>, i: int) -> int
    recommends
        0 <= i <= s.len(),
    decreases s.len() - i,
{
    if i < s.len() && is_space(s[i]) {
        skip_ws(s, i + 1)
    } else {
        i
    }
}

/// The first position at or after `i` that holds whitespace (or the end).
pub open spec fn skip_tok(s: Seq<char>, i: int) -> int
    recommends
        0 <= i <= s.len(),
    decreases s.len() - i,
{
    if i < s.len() && !is_space(s[i]) {
        skip_tok(s, i + 1)
    } else {
        i
    }
}

/// Skipping whitespace from a position followed only by whitespace up to a
/// non-whitespace position (or the end) lands exactly there.
pub proof fn lemma_skip_ws_exact(s: Seq<char>, i: int, j: int)
    requires
        0 <= i <= j <= s.len(),
        forall|k: int| i <= k < j ==> is_space(#[trigger] s[k]),
        j < s.len() ==> !is_space(s[j]),
    ensures
        skip_ws(s, i) == j,
    decreases j - i,
{
    if i < j {
        lemma_skip_ws_exact(s, i + 1, j);
    }
}

/// Skipping a token from a position followed only by non-whitespace up to a
/// whitespace position (or the end) lands exactly there.
pub proof fn lemma_skip_tok_exact(s: Seq<char>, i: int, j: int)
    requires
        0 <= i <= j <= s.len(),
        forall|k: int| i <= k < j ==> !is_space(#[trigger] s[k]),
        j < s.len() ==> is_space(s[j]),
    ensures
        skip_tok(s, i) == j,
    decreases j - i,
{
    if i < j {
        lemma_skip_tok_exact(s, i + 1, j);
    }
}

/// The second whitespace-separated token of a sequence, if it has one.
pub open spec fn spec_second_token(s: Seq<char>) -> Option<Seq<char>> {
    let first_start = skip_ws(s, 0);
    if first_start == s.len() {
        None
    } else {
        let first_end = skip_tok(s, first_start);
        let second_start = skip_ws(s, first_end);
        if second_start == s.len() {
            None
        } else {
            Some(s.subrange(second_start, skip_tok(s, second_start)))
        }
    }
}

/// The port number a token denotes, as a decimal `u16` is read: an optional
/// leading plus sign, then one or more decimal digits, whose value fits a
/// port.
pub open spec fn spec_parse_u16(t: Seq<char>) -> Option<u16> {
    if t.len() > 0 && t[0] == '+' {
        spec_parse_digits(t.subrange(1, t.len() as int))
    } else {
        spec_parse_digits(t)
    }
}

/// The port number a run of characters denotes when every one is a decimal
/// digit and their value fits a port.
pub open spec fn spec_parse_digits(digits: Seq<char>) -> Option<u16> {
    if digits.len() > 0 && all_digits(digits) && dec_value(digits) <= u16::MAX {
        Some(dec_value(digits) as u16)
    } else {
        None
    }
}

/// The port number named by the second token of a report line, if the line
/// has a second token and it is a port number in decimal.
pub open spec fn spec_extract_port(s: Seq<char>) -> Option<u16> {
    match spec_second_token(s) {
        Option::None => Option::<u16>::None,
        Option::Some(t) => spec_parse_u16(t),
    }
}

/// Whether a character separates tokens.
fn space_char(c: char) -> (r: bool)
    ensures
        r == is_space(c),
{
    let v = c as u32;
    v == 0x20 || (0x9 <= v && v <= 0xd) || v == 0x85 || v == 0xa0 || v == 0x1680 || (0x2000 <= v
        && v <= 0x200a) || v == 0x2028 || v == 0x2029 || v == 0x202f || v == 0x205f || v == 0x3000
}

/// Scans past whitespace, starting at `start`.
fn scan_ws(s: &str, start: usize) -> (r: usize)
    requires
        start <= s@.len(),
    ensures
        r == skip_ws(s@, start as int),
        start <= r <= s@.len(),
{
    let n = s.unicode_len();
    let mut i = start;
    while i < n && space_char(s.get_char(i))
        invariant
            start <= i <= n,
            n == s@.len(),
            skip_ws(s@, start as int) == skip_ws(s@, i as int),
        decreases n - i,
    {
        i = i + 1;
    }
    i
}

/// Scans past a token, starting at `start`.
fn scan_tok(s: &str, start: usize) -> (r: usize)
    requires
        start <= s@.len(),
    ensures
        r == skip_tok(s@, start as int),
        start <= r <= s@.len(),
{
    let n = s.unicode_len();
    let mut i = start;
    while i < n && !space_char(s.get_char(i))
        invariant
            start <= i <= n,
            n == s@.len(),
            skip_tok(s@, start as int) == skip_tok(s@, i as int),
        decreases n - i,
    {
        i = i + 1;
    }
    i
}

/// Reads the characters of `s` between `from` and `to` as a decimal port
/// number; yields nothing on an empty range, a non-digit after the optional
/// plus sign, or overflow.
fn parse_port_digits(s: &str, from: usize, to: usize) -> (r: Option<u16>)
    requires
        from <= to <= s@.len(),
    ensures
        r == spec_parse_u16(s@.subrange(from as int, to as int)),
{
    let ghost t = s@.subrange(from as int, to as int);
    if from == to {
        return None;
    }
    let dstart = if s.get_char(from) == '+' {
        from + 1
    } else {
        from
    };
    let ghost digits = s@.subrange(dstart as int, to as int);
    proof {
        if t[0] == '+' {
            assert(digits =~= t.subrange(1, t.len() as int));
        } else {
            assert(digits =~= t);
        }
        assert(spec_parse_u16(t) == spec_parse_digits(digits));
    }
    if dstart == to {
        return None;
    }
    let mut acc: u32 = 0;
    let mut i = dstart;
    while i < to
        invariant
            dstart <= i <= to <= s@.len(),
            digits == s@.subrange(dstart as int, to as int),
            digits.len() > 0,
            t == s@.subrange(from as int, to as int),
            spec_parse_u16(t) == spec_parse_digits(digits),
            all_digits(digits.subrange(0, i - dstart)),
            acc == dec_value(digits.subrange(0, i - dstart)),
            acc <= u16::MAX,
        decreases to - i,
    {
        let c = s.get_char(i);
        let v = c as u32;
        proof {
            assert(digits[i - dstart] == s@[i as int]);
            assert(digits.subrange(0, i + 1 - dstart).drop_last() =~= digits.subrange(
                0,
                i - dstart,
            ));
            assert(digits.subrange(0, i + 1 - dstart).last() == digits[i - dstart]);
        }
        if v < 48 || v > 57 {
            proof {
                assert(!is_digit(digits[i - dstart]));
                assert(!all_digits(digits));
            }
            return None;
        }
        let d = v - 48;
        proof {
            assert(is_digit(digits[i - dstart]));
            assert(digit_val(digits[i - dstart]) == d);
        }
        if acc > (u16::MAX as u32 - d) / 10 {
            proof {
                assert(dec_value(digits.subrange(0, i + 1 - dstart)) == acc * 10 + d);
                assert(acc * 10 + d > u16::MAX);
                lemma_dec_value_prefix_le(digits, i + 1 - dstart);
                assert(dec_value(digits) > u16::MAX);
            }
            return None;
        }
        acc = acc * 10 + d;
        i = i + 1;
    }
    proof {
        assert(digits.subrange(0, to - dstart) =~= digits);
    }
    Some(acc as u16)
}

/// Reads the port number out of one report line: the line's second
/// whitespace-separated token, as a decimal number, when it is one.
pub fn extract_port_number(result: &str) -> (r: Option<u16>)
    ensures
        r == spec_extract_port(result@),
{
    let n = result.unicode_len();
    let first_start = scan_ws(result, 0);
    if first_start == n {
        return None;
    }
    let first_end = scan_tok(result, first_start);
    let second_start = scan_ws(result, first_end);
    if second_start == n {
        return None;
    }
    let second_end = scan_tok(result, second_start);
    parse_port_digits(result, second_start, second_end)
}

} // verus!
