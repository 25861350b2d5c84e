//! Decimal notation for the integer values that appear in URLs, query
//! parameters and JSON bodies, and the decimal parser used for the
//! rate-limit response header.

use vstd::prelude::*;

verus! {

/// The decimal digit character for a value below ten.
pub open spec fn digit_char(d: int) -> char
    recommends
        0 <= d < 10,
{
    if d == 0 {
        '0'
    } else if d == 1 {
        '1'
    } else if d == 2 {
        '2'
    } else if d == 3 {
        '3'
    } else if d == 4 {
        '4'
    } else if d == 5 {
        '5'
    } else if d == 6 {
        '6'
    } else if d == 7 {
        '7'
    } else if d == 8 {
        '8'
    } else {
        '9'
    }
}

/// The numeric value of a decimal digit character, or -1 for any other
/// character.
pub open spec fn digit_value(c: char) -> int {
    if c == '0' {
        0
    } else if c == '1' {
        1
    } else if c == '2' {
        2
    } else if c == '3' {
        3
    } else if c == '4' {
        4
    } else if c == '5' {
        5
    } else if c == '6' {
        6
    } else if c == '7' {
        7
    } else if c == '8' {
        8
    } else if c == '9' {
        9
    } else {
        -1
    }
}

/// The usual decimal notation of a non-negative `n`, most significant digit
/// first, with no leading zeros (zero is written "0").
pub open spec fn dec_digits(n: int) -> Seq<char>
    recommends
        n >= 0,
    decreases n,
{
    if n < 10 {
        seq![digit_char(n)]
    } else {
        dec_digits(n / 10).push(digit_char(n % 10))
    }
}

/// The decimal notation of any integer: a minus sign before the digits when
/// `n` is negative.
pub open spec fn dec_int(n: int) -> Seq<char> {
    if n < 0 {
        seq!['-'] + dec_digits(-n)
    } else {
        dec_digits(n)
    }
}

/// The character for a decimal digit.
pub fn digit_to_char(d: u64) -> (c: char)
    requires
        d < 10,
    ensures
        c == digit_char(d as int),
{
    if d == 0 {
        '0'
    } else if d == 1 {
        '1'
    } else if d == 2 {
        '2'
    } else if d == 3 {
        '3'
    } else if d == 4 {
        '4'
    } else if d == 5 {
        '5'
    } else if d == 6 {
        '6'
    } else if d == 7 {
        '7'
    } else if d == 8 {
        '8'
    } else {
        '9'
    }
}

/// Appends the decimal digits of `n` to `v`.
pub fn push_dec_digits(v: &mut Vec<char>, n: u64)
    ensures
        final(v)@ == old(v)@ + dec_digits(n as int),
    decreases n,
{
    if n < 10 {
        let c = digit_to_char(n);
        v.push(c);
    } else {
        push_dec_digits(v, n / 10);
        let c = digit_to_char(n % 10);
        v.push(c);
    }
}

/// Writes `n` in decimal.
pub fn u64_to_string(n: u64) -> (r: String)
    ensures
        r@ == dec_digits(n as int),
{
    let mut v: Vec<char> = Vec::new();
    push_dec_digits(&mut v, n);
    chars_to_string(&v)
}

/// Writes `n` in decimal, with a minus sign when it is negative.
pub fn i64_to_string(n: i64) -> (r: String)
    ensures
        r@ == dec_int(n as int),
{
    let mut v: Vec<char> = Vec::new();
    if n < 0 {
        v.push('-');
        let mag: u64 = if n == i64::MIN {
            9223372036854775808u64
        } else {
            (-n) as u64
        };
        assert(mag == -(n as int));
        push_dec_digits(&mut v, mag);
    } else {
        push_dec_digits(&mut v, n as u64);
    }
    chars_to_string(&v)
}

/// The value of a sequence of decimal digit characters, most significant
/// first, or -1 if any character is not a digit or the sequence is empty.
pub open spec fn dec_value(s: Seq<char>) -> int
    decreases s.len(),
{
    if s.len() == 0 {
        -1
    } else if s.len() == 1 {
        digit_value(s[0])
    } else {
        let prefix = dec_value(s.drop_last());
        let last = digit_value(s.last());
        if prefix < 0 || last < 0 {
            -1
        } else {
            prefix * 10 + last
        }
    }
}

/// The accepted decimal notation of an integer: an optional sign followed by
/// at least one digit, all digits, with the magnitude at most `i64::MAX`.
pub open spec fn parse_i64_spec(s: Seq<char>) -> Option<i64> {
    let digits = if s.len() > 0 && (s[0] == '+' || s[0] == '-') {
        s.drop_first()
    } else {
        s
    };
    let mag = dec_value(digits);
    if mag < 0 || mag > i64::MAX {
        None
    } else if s.len() > 0 && s[0] == '-' {
        Some((-mag) as i64)
    } else {
        Some(mag as i64)
    }
}

/// The numeric value of a decimal digit character, -1 for any other.
pub fn char_digit_value(c: char) -> (d: i8)
    ensures
        d as int == digit_value(c),
{
    if c == '0' {
        0
    } else if c == '1' {
        1
    } else if c == '2' {
        2
    } else if c == '3' {
        3
    } else if c == '4' {
        4
    } else if c == '5' {
        5
    } else if c == '6' {
        6
    } else if c == '7' {
        7
    } else if c == '8' {
        8
    } else if c == '9' {
        9
    } else {
        -1
    }
}

proof fn lemma_dec_value_bounds(s: Seq<char>)
    ensures
        dec_value(s) >= -1,
    decreases s.len(),
{
    if s.len() > 1 {
        lemma_dec_value_bounds(s.drop_last());
    }
}

/// Parses decimal digits; `None` when the characters are not the decimal
/// notation of a value within `0 ..= i64::MAX`.
fn parse_digits(v: &[char], start: usize) -> (r: Option<i64>)
    requires
        start <= v@.len(),
    ensures
        match r {
            Some(x) => x as int == dec_value(v@.skip(start as int)) && x >= 0,
            None => dec_value(v@.skip(start as int)) < 0 || dec_value(v@.skip(start as int))
                > i64::MAX,
        },
{
    let ghost digits = v@.skip(start as int);
    if start == v.len() {
        assert(digits.len() == 0);
        return None;
    }
    let mut acc: i64 = 0;
    let mut i: usize = start;
    while i < v.len()
        invariant
            start <= i <= v@.len(),
            start < v@.len(),
            digits == v@.skip(start as int),
            i > start ==> acc as int == dec_value(v@.subrange(start as int, i as int)) && acc
                >= 0,
            i == start ==> acc == 0,
        decreases v@.len() - i,
    {
        let d: i8 = char_digit_value(v[i]);
        if d < 0 {
            proof {
                lemma_dec_value_prefix_bad(digits, i - start);
            }
            return None;
        }
        proof {
            reveal_dec_value_step(v@, start as int, i as int, acc as int, d as int);
        }
        assert(digits.subrange(0, i + 1 - start) == v@.subrange(start as int, i + 1));
        if i > start && acc > (i64::MAX - d as i64) / 10 {
            proof {
                lemma_div_mul_bound(acc as int, d as int);
                lemma_dec_value_prefix_big(digits, i + 1 - start);
            }
            return None;
        }
        proof {
            if i > start {
                lemma_mul_fits(acc as int, d as int);
            }
        }
        let next: i64 = acc * 10 + d as i64;
        acc = next;
        i = i + 1;
    }
    assert(v@.subrange(start as int, v@.len() as int) == digits);
    Some(acc)
}

proof fn lemma_div_mul_bound(acc: int, d: int)
    requires
        0 <= d < 10,
        acc > (i64::MAX - d) / 10,
    ensures
        acc * 10 + d > i64::MAX,
{
    let q = (i64::MAX - d) / 10;
    assert(i64::MAX - d == q * 10 + (i64::MAX - d) % 10);
    assert(acc >= q + 1);
    assert(acc * 10 >= (q + 1) * 10) by (nonlinear_arith)
        requires
            acc >= q + 1,
    ;
}

proof fn lemma_mul_fits(acc: int, d: int)
    requires
        0 <= d < 10,
        0 <= acc,
        acc <= (i64::MAX - d) / 10,
    ensures
        acc * 10 + d <= i64::MAX,
{
    let q = (i64::MAX - d) / 10;
    assert(q * 10 <= i64::MAX - d) by (nonlinear_arith)
        requires
            q == (i64::MAX - d) / 10,
            0 <= d < 10,
    ;
    assert(acc * 10 <= q * 10) by (nonlinear_arith)
        requires
            acc <= q,
    ;
}

proof fn reveal_dec_value_step(s: Seq<char>, start: int, i: int, acc: int, d: int)
    requires
        0 <= start <= i < s.len(),
        d == digit_value(s[i]),
        d >= 0,
        i == start ==> acc == 0,
        i > start ==> acc == dec_value(s.subrange(start, i)) && acc >= 0,
    ensures
        dec_value(s.subrange(start, i + 1)) == acc * 10 + d,
{
    let sub = s.subrange(start, i + 1);
    if i == start {
        assert(sub.len() == 1);
        assert(sub[0] == s[i]);
    } else {
        assert(sub.drop_last() == s.subrange(start, i));
        assert(sub.last() == s[i]);
    }
}

proof fn lemma_dec_value_prefix_bad(s: Seq<char>, k: int)
    requires
        0 <= k < s.len(),
        digit_value(s[k]) < 0,
    ensures
        dec_value(s) < 0,
    decreases s.len(),
{
    if s.len() > 1 {
        if k == s.len() - 1 {
        } else {
            lemma_dec_value_prefix_bad(s.drop_last(), k);
        }
    }
}

proof fn lemma_dec_value_prefix_big(s: Seq<char>, k: int)
    requires
        0 < k <= s.len(),
        dec_value(s.subrange(0, k)) > i64::MAX || dec_value(s.subrange(0, k)) < 0,
    ensures
        dec_value(s) > i64::MAX || dec_value(s) < 0,
    decreases s.len() - k,
{
    if k == s.len() {
        assert(s.subrange(0, k) == s);
    } else {
        let prefix = dec_value(s.subrange(0, k));
        let sub = s.subrange(0, k + 1);
        assert(sub.drop_last() == s.subrange(0, k));
        if prefix > i64::MAX {
            let last = digit_value(sub.last());
            if last >= 0 {
                assert(prefix * 10 >= prefix) by (nonlinear_arith)
                    requires
                        prefix > 0,
                ;
            }
        }
        lemma_dec_value_prefix_big(s, k + 1);
    }
}

/// Parses an integer as `str::parse::<i64>` does: an optional sign followed
/// by one or more decimal digits.
pub fn parse_i64(v: &[char]) -> (r: Option<i64>)
    ensures
        r == parse_i64_spec(v@),
{
    if v.len() > 0 && (v[0] == '+' || v[0] == '-') {
        let neg: bool = v[0] == '-';
        let mag: Option<i64> = parse_digits(v, 1);
        proof {
            assert(v@.skip(1) == v@.drop_first());
            lemma_dec_value_bounds(v@.drop_first());
        }
        match mag {
            Some(m) => if neg {
                Some(-m)
            } else {
                Some(m)
            },
            None => None,
        }
    } else {
        proof {
            assert(v@.skip(0) == v@);
            lemma_dec_value_bounds(v@);
        }
        parse_digits(v, 0)
    }
}

/// Relies on `core::iter::Iterator::collect`: collecting characters yields
/// the string of exactly those characters in order.
#[verifier::external_body]
pub fn chars_to_string(v: &Vec<char>) -> (s: String)
    ensures
        s@ == v@,
{
    v.iter().collect()
}

/// Relies on `core::iter::Iterator::collect`: the characters of a string
/// slice, in order.
#[verifier::external_body]
pub fn str_to_chars(s: &str) -> (v: Vec<char>)
    ensures
        v@ == s@,
{
    s.chars().collect()
}

} // verus!
