//! Calendar timestamps and their RFC 3339 wire notation.
//!
//! The API writes every timestamp as an RFC 3339 string in UTC.  A
//! [`Timestamp`] holds the civil fields directly; [`Timestamp::to_rfc3339`]
//! writes the notation used in query parameters and request bodies, and
//! [`parse_rfc3339`] reads the strings the API returns.  Only UTC offsets
//! (`Z`, `z`, `+00:00`, `-00:00`) are accepted: the API emits no other.

use vstd::prelude::*;

use chrono::{Datelike, Timelike};

use vstd::arithmetic::div_mod::{lemma_breakdown, lemma_div_denominator};

use crate::num::{digit_char, digit_value, chars_to_string};

verus! {

/// A civil date and time in UTC, to nanosecond precision.
///
/// The field order makes the derived ordering chronological.
#[derive(Debug, Clone, Copy, PartialEq, Eq, PartialOrd, Ord, Hash)]
pub struct Timestamp {
    /// Four-digit year.
    pub year: u16,
    /// Month of the year, from 1.
    pub month: u8,
    /// Day of the month, from 1.
    pub day: u8,
    /// Hour of the day, from 0.
    pub hour: u8,
    /// Minute of the hour, from 0.
    pub minute: u8,
    /// Second of the minute, from 0.
    pub second: u8,
    /// Nanoseconds within the second.
    pub nanos: u32,
}

/// Years with a February 29th.
pub open spec fn is_leap_year(year: int) -> bool {
    (year % 4 == 0 && year % 100 != 0) || year % 400 == 0
}

/// How many days the given month has.
pub open spec fn days_in_month(year: int, month: int) -> int {
    if month == 2 {
        if is_leap_year(year) {
            29
        } else {
            28
        }
    } else if month == 4 || month == 6 || month == 9 || month == 11 {
        30
    } else {
        31
    }
}

impl Timestamp {
    /// A calendar-valid timestamp with a four-digit year.
    pub open spec fn wf(self) -> bool {
        &&& 1 <= self.year <= 9999
        &&& 1 <= self.month <= 12
        &&& 1 <= self.day <= days_in_month(self.year as int, self.month as int)
        &&& self.hour <= 23
        &&& self.minute <= 59
        &&& self.second <= 59
        &&& self.nanos <= 999_999_999
    }

    /// Writes this timestamp in RFC 3339 notation.
    #[verifier::rlimit(100)]
    pub fn to_rfc3339(&self) -> (r: String)
        requires
            self.wf(),
        ensures
            r@ == rfc3339(*self),
    {
        let mut v: Vec<char> = Vec::new();
        push_pad4(&mut v, self.year as u32);
        v.push('-');
        push_pad2(&mut v, self.month as u32);
        v.push('-');
        push_pad2(&mut v, self.day as u32);
        v.push('T');
        push_pad2(&mut v, self.hour as u32);
        v.push(':');
        push_pad2(&mut v, self.minute as u32);
        v.push(':');
        push_pad2(&mut v, self.second as u32);
        if self.nanos != 0 {
            v.push('.');
            if self.nanos % 1_000_000 == 0 {
                push_pad3(&mut v, self.nanos / 1_000_000);
            } else if self.nanos % 1000 == 0 {
                push_pad6(&mut v, self.nanos / 1000);
            } else {
                push_pad9(&mut v, self.nanos);
            }
        }
        v.push('+');
        v.push('0');
        v.push('0');
        v.push(':');
        v.push('0');
        v.push('0');
        proof {
            reveal(rfc3339);
            assert(v@ =~= rfc3339(*self));
        }
        chars_to_string(&v)
    }
}

/// Two decimal digits, zero padded.
pub open spec fn pad2(n: int) -> Seq<char> {
    seq![digit_char(n / 10 % 10), digit_char(n % 10)]
}

/// Three decimal digits, zero padded.
pub open spec fn pad3(n: int) -> Seq<char> {
    seq![digit_char(n / 100 % 10)] + pad2(n)
}

/// Four decimal digits, zero padded.
pub open spec fn pad4(n: int) -> Seq<char> {
    seq![digit_char(n / 1000 % 10)] + pad3(n)
}

/// Six decimal digits, zero padded.
pub open spec fn pad6(n: int) -> Seq<char> {
    seq![
        digit_char(n / 100_000 % 10),
        digit_char(n / 10_000 % 10),
        digit_char(n / 1000 % 10),
    ] + pad3(n)
}

/// Nine decimal digits, zero padded.
pub open spec fn pad9(n: int) -> Seq<char> {
    seq![
        digit_char(n / 100_000_000 % 10),
        digit_char(n / 10_000_000 % 10),
        digit_char(n / 1_000_000 % 10),
    ] + pad6(n)
}

/// The subsecond part: absent for zero, else a point and three, six or nine
/// digits, as few as render the value exactly.
pub open spec fn frac_part(nanos: int) -> Seq<char> {
    if nanos == 0 {
        Seq::empty()
    } else if nanos % 1_000_000 == 0 {
        seq!['.'] + pad3(nanos / 1_000_000)
    } else if nanos % 1000 == 0 {
        seq!['.'] + pad6(nanos / 1000)
    } else {
        seq!['.'] + pad9(nanos)
    }
}

/// The RFC 3339 notation of a timestamp: date, `T`, time, the subsecond part
/// and the UTC offset `+00:00`.
#[verifier::opaque]
pub open spec fn rfc3339(t: Timestamp) -> Seq<char> {
    pad4(t.year as int) + seq!['-'] + pad2(t.month as int) + seq!['-'] + pad2(t.day as int)
        + seq!['T'] + pad2(t.hour as int) + seq![':'] + pad2(t.minute as int) + seq![':'] + pad2(
        t.second as int,
    ) + frac_part(t.nanos as int) + seq!['+', '0', '0', ':', '0', '0']
}

fn push_pad2(v: &mut Vec<char>, n: u32)
    ensures
        final(v)@ == old(v)@ + pad2(n as int),
{
    let c1: char = digit_to_char32(n / 10 % 10);
    let c2: char = digit_to_char32(n % 10);
    v.push(c1);
    v.push(c2);
    proof {
        assert(v@ =~= old(v)@ + pad2(n as int));
    }
}

fn push_pad3(v: &mut Vec<char>, n: u32)
    ensures
        final(v)@ == old(v)@ + pad3(n as int),
{
    let c: char = digit_to_char32(n / 100 % 10);
    v.push(c);
    push_pad2(v, n);
    proof {
        assert(v@ =~= old(v)@ + pad3(n as int));
    }
}

fn push_pad4(v: &mut Vec<char>, n: u32)
    ensures
        final(v)@ == old(v)@ + pad4(n as int),
{
    let c: char = digit_to_char32(n / 1000 % 10);
    v.push(c);
    push_pad3(v, n);
    proof {
        assert(v@ =~= old(v)@ + pad4(n as int));
    }
}

fn push_pad6(v: &mut Vec<char>, n: u32)
    ensures
        final(v)@ == old(v)@ + pad6(n as int),
{
    let c1: char = digit_to_char32(n / 100_000 % 10);
    let c2: char = digit_to_char32(n / 10_000 % 10);
    let c3: char = digit_to_char32(n / 1000 % 10);
    v.push(c1);
    v.push(c2);
    v.push(c3);
    push_pad3(v, n);
    proof {
        assert(v@ =~= old(v)@ + pad6(n as int));
    }
}

fn push_pad9(v: &mut Vec<char>, n: u32)
    ensures
        final(v)@ == old(v)@ + pad9(n as int),
{
    let c1: char = digit_to_char32(n / 100_000_000 % 10);
    let c2: char = digit_to_char32(n / 10_000_000 % 10);
    let c3: char = digit_to_char32(n / 1_000_000 % 10);
    v.push(c1);
    v.push(c2);
    v.push(c3);
    push_pad6(v, n);
    proof {
        assert(v@ =~= old(v)@ + pad9(n as int));
    }
}

fn digit_to_char32(d: u32) -> (c: char)
    requires
        d < 10,
    ensures
        c == digit_char(d as int),
{
    if d == 0 {
        '0'
    } else if d == 1 {
        '1'
    } else if d == 2 {
        '2'
    } else if d == 3 {
        '3'
    } else if d == 4 {
        '4'
    } else if d == 5 {
        '5'
    } else if d == 6 {
        '6'
    } else if d == 7 {
        '7'
    } else if d == 8 {
        '8'
    } else {
        '9'
    }
}

/// The power of ten with the given exponent.
pub open spec fn pow10(k: int) -> int
    recommends
        k >= 0,
    decreases k,
{
    if k <= 0 {
        1
    } else {
        10 * pow10(k - 1)
    }
}

/// Reads two decimal digits at the front; yields the value and the rest.
pub open spec fn sp_two(s: Seq<char>) -> Option<(int, Seq<char>)> {
    if s.len() >= 2 && digit_value(s[0]) >= 0 && digit_value(s[1]) >= 0 {
        Some((digit_value(s[0]) * 10 + digit_value(s[1]), s.skip(2)))
    } else {
        None
    }
}

/// Reads four decimal digits at the front; yields the value and the rest.
pub open spec fn sp_four(s: Seq<char>) -> Option<(int, Seq<char>)> {
    if s.len() >= 4 && digit_value(s[0]) >= 0 && digit_value(s[1]) >= 0 && digit_value(s[2]) >= 0
        && digit_value(s[3]) >= 0 {
        Some(
            (
                digit_value(s[0]) * 1000 + digit_value(s[1]) * 100 + digit_value(s[2]) * 10
                    + digit_value(s[3]),
                s.skip(4),
            ),
        )
    } else {
        None
    }
}

/// Reads the single expected character at the front; yields the rest.
pub open spec fn sp_char(s: Seq<char>, c: char) -> Option<Seq<char>> {
    if s.len() >= 1 && s[0] == c {
        Some(s.skip(1))
    } else {
        None
    }
}

/// How many decimal digit characters stand at the front.
pub open spec fn digit_run(s: Seq<char>) -> int
    decreases s.len(),
{
    if s.len() == 0 || digit_value(s[0]) < 0 {
        0
    } else {
        1 + digit_run(s.skip(1))
    }
}

/// The value of a sequence wholly of decimal digits, most significant first.
pub open spec fn digits_val(s: Seq<char>) -> int
    decreases s.len(),
{
    if s.len() == 0 {
        0
    } else {
        digits_val(s.drop_last()) * 10 + digit_value(s.last())
    }
}

/// Reads an optional subsecond part: nothing, or a point and one to nine
/// digits.  Yields nanoseconds and the rest.  Digits beyond the ninth are
/// not accepted.
pub open spec fn sp_frac(s: Seq<char>) -> Option<(int, Seq<char>)> {
    if s.len() >= 1 && s[0] == '.' {
        let k = digit_run(s.skip(1));
        if 1 <= k <= 9 {
            Some((digits_val(s.skip(1).take(k)) * pow10(9 - k), s.skip(1 + k)))
        } else {
            None
        }
    } else {
        Some((0, s))
    }
}

/// True when the rest is exactly a UTC offset: `Z`, `z`, `+00:00` or
/// `-00:00`.
pub open spec fn sp_utc_offset(s: Seq<char>) -> bool {
    (s.len() == 1 && (s[0] == 'Z' || s[0] == 'z')) || (s.len() == 6 && (s[0] == '+' || s[0]
        == '-') && s[1] == '0' && s[2] == '0' && s[3] == ':' && s[4] == '0' && s[5] == '0')
}

/// Reads a full RFC 3339 timestamp with a UTC offset.  `None` for any other
/// string, for a calendar-invalid date, or for a non-UTC offset.
#[verifier::opaque]
pub open spec fn parse_rfc3339_v(s: Seq<char>) -> Option<Timestamp> {
    match sp_four(s) {
        None => None,
        Some((year, s)) => match sp_char(s, '-') {
            None => None,
            Some(s) => match sp_two(s) {
                None => None,
                Some((month, s)) => match sp_char(s, '-') {
                    None => None,
                    Some(s) => match sp_two(s) {
                        None => None,
                        Some((day, s)) => match if sp_char(s, 'T') is Some {
                            sp_char(s, 'T')
                        } else {
                            sp_char(s, 't')
                        } {
                            None => None,
                            Some(s) => match sp_two(s) {
                                None => None,
                                Some((hour, s)) => match sp_char(s, ':') {
                                    None => None,
                                    Some(s) => match sp_two(s) {
                                        None => None,
                                        Some((minute, s)) => match sp_char(s, ':') {
                                            None => None,
                                            Some(s) => match sp_two(s) {
                                                None => None,
                                                Some((second, s)) => match sp_frac(s) {
                                                    None => None,
                                                    Some((nanos, s)) => if sp_utc_offset(s) {
                                                        let t = Timestamp {
                                                            year: year as u16,
                                                            month: month as u8,
                                                            day: day as u8,
                                                            hour: hour as u8,
                                                            minute: minute as u8,
                                                            second: second as u8,
                                                            nanos: nanos as u32,
                                                        };
                                                        if t.wf() {
                                                            Some(t)
                                                        } else {
                                                            None
                                                        }
                                                    } else {
                                                        None
                                                    },
                                                },
                                            },
                                        },
                                    },
                                },
                            },
                        },
                    },
                },
            },
        },
    }
}

/// Reads two digits at `i`.
fn p_two(v: &[char], i: usize) -> (r: Option<u32>)
    requires
        i <= v@.len(),
    ensures
        match r {
            Some(x) => i + 2 <= v@.len() && x < 100 && sp_two(v@.skip(i as int)) == Some(
                (x as int, v@.skip(i as int + 2)),
            ),
            None => sp_two(v@.skip(i as int)) is None,
        },
{
    let ghost u = v@.skip(i as int);
    if i < v.len() && i + 1 < v.len() {
        proof {
            assert(u[0] == v@[i as int]);
            assert(u[1] == v@[i as int + 1]);
            assert(u.skip(2) =~= v@.skip(i as int + 2));
        }
        let d0: i8 = crate::num::char_digit_value(v[i]);
        let d1: i8 = crate::num::char_digit_value(v[i + 1]);
        if d0 >= 0 && d1 >= 0 {
            Some((d0 as u32) * 10 + (d1 as u32))
        } else {
            None
        }
    } else {
        None
    }
}

/// Reads four digits at `i`.
fn p_four(v: &[char], i: usize) -> (r: Option<u32>)
    requires
        i <= v@.len(),
    ensures
        match r {
            Some(x) => i + 4 <= v@.len() && x < 10000 && sp_four(v@.skip(i as int)) == Some(
                (x as int, v@.skip(i as int + 4)),
            ),
            None => sp_four(v@.skip(i as int)) is None,
        },
{
    let ghost u = v@.skip(i as int);
    if i < v.len() && i + 1 < v.len() && i + 2 < v.len() && i + 3 < v.len() {
        proof {
            assert(u[0] == v@[i as int]);
            assert(u[1] == v@[i as int + 1]);
            assert(u[2] == v@[i as int + 2]);
            assert(u[3] == v@[i as int + 3]);
            assert(u.skip(4) =~= v@.skip(i as int + 4));
        }
        let d0: i8 = crate::num::char_digit_value(v[i]);
        let d1: i8 = crate::num::char_digit_value(v[i + 1]);
        let d2: i8 = crate::num::char_digit_value(v[i + 2]);
        let d3: i8 = crate::num::char_digit_value(v[i + 3]);
        if d0 >= 0 && d1 >= 0 && d2 >= 0 && d3 >= 0 {
            Some((d0 as u32) * 1000 + (d1 as u32) * 100 + (d2 as u32) * 10 + (d3 as u32))
        } else {
            None
        }
    } else {
        None
    }
}

/// Checks for the single character `c` at `i`.
fn p_char(v: &[char], i: usize, c: char) -> (r: bool)
    requires
        i <= v@.len(),
    ensures
        r ==> i + 1 <= v@.len() && sp_char(v@.skip(i as int), c) == Some(
            v@.skip(i as int + 1),
        ),
        !r ==> sp_char(v@.skip(i as int), c) is None,
{
    let ghost u = v@.skip(i as int);
    if i < v.len() {
        proof {
            assert(u[0] == v@[i as int]);
            assert(u.skip(1) =~= v@.skip(i as int + 1));
        }
        v[i] == c
    } else {
        false
    }
}

fn pow10_u32(k: u32) -> (r: u32)
    requires
        k <= 9,
    ensures
        r as int == pow10(k as int),
{
    proof {
        reveal_with_fuel(pow10, 11);
    }
    if k == 0 {
        1
    } else if k == 1 {
        10
    } else if k == 2 {
        100
    } else if k == 3 {
        1000
    } else if k == 4 {
        10_000
    } else if k == 5 {
        100_000
    } else if k == 6 {
        1_000_000
    } else if k == 7 {
        10_000_000
    } else if k == 8 {
        100_000_000
    } else {
        1_000_000_000
    }
}

proof fn lemma_digit_run_split(s: Seq<char>, j: int)
    requires
        0 <= j <= s.len(),
        forall|x: int| 0 <= x < j ==> digit_value(s[x]) >= 0,
    ensures
        digit_run(s) == j + digit_run(s.skip(j)),
    decreases j,
{
    if j > 0 {
        assert(digit_value(s[0]) >= 0);
        assert(digit_run(s) == 1 + digit_run(s.skip(1)));
        lemma_digit_run_split(s.skip(1), j - 1);
        assert(s.skip(1).skip(j - 1) =~= s.skip(j));
    } else {
        assert(s.skip(0) =~= s);
    }
}

proof fn lemma_digit_run_stops(s: Seq<char>, j: int)
    requires
        0 <= j <= s.len(),
        forall|x: int| 0 <= x < j ==> digit_value(s[x]) >= 0,
        j == s.len() || digit_value(s[j]) < 0,
    ensures
        digit_run(s) == j,
    decreases j,
{
    if j == 0 {
    } else {
        assert(digit_value(s[0]) >= 0);
        assert(digit_run(s) == 1 + digit_run(s.skip(1)));
        lemma_digit_run_stops(s.skip(1), j - 1);
    }
}

proof fn lemma_digits_val_snoc(s: Seq<char>, acc: int, j: int)
    requires
        0 <= j < s.len(),
        acc == digits_val(s.take(j)),
    ensures
        digits_val(s.take(j + 1)) == acc * 10 + digit_value(s[j]),
{
    assert(s.take(j + 1).drop_last() =~= s.take(j));
    assert(s.take(j + 1).last() == s[j]);
}

/// Reads the optional subsecond part at `i`.
fn p_frac(v: &[char], i: usize) -> (r: Option<(u32, usize)>)
    requires
        i <= v@.len(),
    ensures
        match r {
            Some((nanos, j)) => i <= j <= v@.len() && sp_frac(v@.skip(i as int)) == Some(
                (nanos as int, v@.skip(j as int)),
            ),
            None => sp_frac(v@.skip(i as int)) is None,
        },
{
    let ghost u = v@.skip(i as int);
    if i < v.len() && v[i] == '.' {
        proof {
            assert(u[0] == v@[i as int]);
            assert(u.skip(1) =~= v@.skip(i as int + 1));
        }
        let ghost w = v@.skip(i as int + 1);
        // count the digit run and accumulate its value as we go
        let mut j: usize = i + 1;
        let mut val: u32 = 0;
        while j < v.len() && j - i - 1 < 9 && crate::num::char_digit_value(v[j]) >= 0
            invariant
                i + 1 <= j <= v@.len(),
                i < v@.len(),
                j - i - 1 <= 9,
                w == v@.skip(i as int + 1),
                forall|x: int| 0 <= x < j - i - 1 ==> digit_value(w[x]) >= 0,
                val as int == digits_val(w.take(j - i - 1)),
            decreases v@.len() - j,
        {
            let d: i8 = crate::num::char_digit_value(v[j]);
            proof {
                let k = j - i - 1;
                assert(w[k as int] == v@[j as int]);
                assert(forall|x: int|
                    0 <= x < k ==> digit_value(#[trigger] w.take(k as int)[x]) >= 0);
                lemma_digits_val_bound(w.take(k as int));
                lemma_pow10_mono(k as int, 8);
                reveal_with_fuel(pow10, 10);
                lemma_digits_val_snoc(w, val as int, k as int);
            }
            val = val * 10 + (d as u32);
            j = j + 1;
        }
        let k: usize = j - i - 1;
        if k == 0 {
            proof {
                if w.len() > 0 {
                    assert(w[0] == v@[j as int]);
                }
                lemma_digit_run_stops(w, 0);
            }
            return None;
        }
        if j < v.len() && crate::num::char_digit_value(v[j]) >= 0 {
            // a tenth digit follows: more precision than the notation carries
            proof {
                assert(k == 9);
                assert(w[k as int] == v@[j as int]);
                lemma_digit_run_split(w, k as int);
                let tail = w.skip(k as int);
                assert(tail[0] == w[k as int]);
                assert(digit_run(tail) == 1 + digit_run(tail.skip(1)));
                lemma_digit_run_nonneg(tail.skip(1));
                assert(digit_run(w) >= 10);
            }
            return None;
        }
        proof {
            if j < v@.len() {
                assert(w[k as int] == v@[j as int]);
            }
            lemma_digit_run_stops(w, k as int);
            assert(w.skip(k as int) =~= v@.skip(j as int));
            assert(forall|x: int|
                0 <= x < k ==> digit_value(#[trigger] w.take(k as int)[x]) >= 0);
            lemma_digits_val_bound(w.take(k as int));
            lemma_pow10_mul_bound(val as int, k as int);
            reveal_with_fuel(pow10, 11);
        }
        let mult: u32 = pow10_u32(9 - k as u32);
        Some((val * mult, j))
    } else {
        proof {
            if i < v@.len() {
                assert(u[0] == v@[i as int]);
            }
            assert(u =~= v@.skip(i as int));
        }
        Some((0, i))
    }
}

proof fn lemma_digit_run_nonneg(s: Seq<char>)
    ensures
        digit_run(s) >= 0,
    decreases s.len(),
{
    if s.len() > 0 && digit_value(s[0]) >= 0 {
        lemma_digit_run_nonneg(s.skip(1));
    }
}

proof fn lemma_pow10_pos(k: int)
    ensures
        pow10(k) >= 1,
    decreases k,
{
    if k > 0 {
        lemma_pow10_pos(k - 1);
    }
}

proof fn lemma_pow10_mono(a: int, b: int)
    requires
        a <= b,
    ensures
        pow10(a) <= pow10(b),
    decreases b - a,
{
    if a < b {
        lemma_pow10_mono(a, b - 1);
        lemma_pow10_pos(b - 1);
        if b > 0 {
            assert(pow10(b) == 10 * pow10(b - 1));
        }
    }
}

proof fn lemma_digits_val_bound(s: Seq<char>)
    requires
        forall|x: int| 0 <= x < s.len() ==> digit_value(s[x]) >= 0,
    ensures
        0 <= digits_val(s) < pow10(s.len() as int),
    decreases s.len(),
{
    reveal_with_fuel(pow10, 2);
    if s.len() > 0 {
        assert(forall|x: int|
            0 <= x < s.len() - 1 ==> digit_value(s.drop_last()[x]) == digit_value(s[x]));
        lemma_digits_val_bound(s.drop_last());
        let n = s.len() as int;
        let prefix = digits_val(s.drop_last());
        assert(pow10(n) == 10 * pow10(n - 1));
        assert(prefix * 10 <= (pow10(n - 1) - 1) * 10) by (nonlinear_arith)
            requires
                prefix <= pow10(n - 1) - 1,
        ;
        assert(0 <= digit_value(s.last()) <= 9);
    }
}

proof fn lemma_pow10_mul_bound(val: int, k: int)
    requires
        1 <= k <= 9,
        0 <= val,
        val < pow10(k),
    ensures
        val * pow10(9 - k) < pow10(9),
        val * pow10(9 - k) <= (val + 1) * pow10(9 - k) - 1,
{
    reveal_with_fuel(pow10, 11);
    assert((val + 1) * pow10(9 - k) <= pow10(k) * pow10(9 - k)) by (nonlinear_arith)
        requires
            val + 1 <= pow10(k),
            pow10(9 - k) >= 0,
    ;
    assert(pow10(k) * pow10(9 - k) == pow10(9)) by {
        lemma_pow10_add(k, 9 - k);
    }
    assert(val * pow10(9 - k) < (val + 1) * pow10(9 - k)) by (nonlinear_arith)
        requires
            pow10(9 - k) >= 1,
    ;
}

proof fn lemma_pow10_add(a: int, b: int)
    requires
        a >= 0,
        b >= 0,
    ensures
        pow10(a) * pow10(b) == pow10(a + b),
    decreases a,
{
    if a == 0 {
    } else {
        lemma_pow10_add(a - 1, b);
        assert(pow10(a) == 10 * pow10(a - 1));
        assert(pow10(a) * pow10(b) == 10 * (pow10(a - 1) * pow10(b))) by (nonlinear_arith)
            requires
                pow10(a) == 10 * pow10(a - 1),
        ;
    }
}

/// Checks that the characters from `i` on are exactly a UTC offset.
fn p_utc_offset(v: &[char], i: usize) -> (r: bool)
    requires
        i <= v@.len(),
    ensures
        r == sp_utc_offset(v@.skip(i as int)),
{
    let ghost u = v@.skip(i as int);
    proof {
        assert forall|x: int| 0 <= x < u.len() implies u[x] == v@[i + x] by {}
    }
    let n = v.len() - i;
    if n == 1 {
        v[i] == 'Z' || v[i] == 'z'
    } else if n == 6 {
        (v[i] == '+' || v[i] == '-') && v[i + 1] == '0' && v[i + 2] == '0' && v[i + 3] == ':'
            && v[i + 4] == '0' && v[i + 5] == '0'
    } else {
        false
    }
}

/// Reads an RFC 3339 timestamp, as [`parse_rfc3339_v`] describes.
pub fn parse_rfc3339(v: &[char]) -> (r: Option<Timestamp>)
    ensures
        r == parse_rfc3339_v(v@),
{
    proof {
        reveal(parse_rfc3339_v);
    }
    let year: u32 = match p_four(v, 0) {
        Some(x) => x,
        None => {
            proof {
                assert(v@.skip(0) =~= v@);
            }
            return None;
        },
    };
    proof {
        assert(v@.skip(0) =~= v@);
    }
    if !p_char(v, 4, '-') {
        return None;
    }
    let month: u32 = match p_two(v, 5) {
        Some(x) => x,
        None => {
            return None;
        },
    };
    if !p_char(v, 7, '-') {
        return None;
    }
    let day: u32 = match p_two(v, 8) {
        Some(x) => x,
        None => {
            return None;
        },
    };
    let has_t: bool = p_char(v, 10, 'T');
    if !has_t && !p_char(v, 10, 't') {
        return None;
    }
    let hour: u32 = match p_two(v, 11) {
        Some(x) => x,
        None => {
            return None;
        },
    };
    if !p_char(v, 13, ':') {
        return None;
    }
    let minute: u32 = match p_two(v, 14) {
        Some(x) => x,
        None => {
            return None;
        },
    };
    if !p_char(v, 16, ':') {
        return None;
    }
    let second: u32 = match p_two(v, 17) {
        Some(x) => x,
        None => {
            return None;
        },
    };
    let (nanos, rest): (u32, usize) = match p_frac(v, 19) {
        Some(x) => x,
        None => {
            return None;
        },
    };
    if !p_utc_offset(v, rest) {
        return None;
    }
    let t = Timestamp {
        year: year as u16,
        month: month as u8,
        day: day as u8,
        hour: hour as u8,
        minute: minute as u8,
        second: second as u8,
        nanos,
    };
    if t.check_wf() {
        Some(t)
    } else {
        None
    }
}

/// Reads an RFC 3339 timestamp out of a string slice.
pub fn parse_rfc3339_text(s: &str) -> (r: Option<Timestamp>)
    ensures
        r == parse_rfc3339_v(s@),
{
    let chars: Vec<char> = crate::num::str_to_chars(s);
    parse_rfc3339(chars.as_slice())
}

/// How many days the given month has.
pub fn days_in_month_of(year: u16, month: u8) -> (d: u8)
    ensures
        d as int == days_in_month(year as int, month as int),
{
    if month == 2 {
        if (year % 4 == 0 && year % 100 != 0) || year % 400 == 0 {
            29
        } else {
            28
        }
    } else if month == 4 || month == 6 || month == 9 || month == 11 {
        30
    } else {
        31
    }
}

impl Timestamp {
    /// Tests calendar validity, as [`Timestamp::wf`] describes.
    pub fn check_wf(&self) -> (b: bool)
        ensures
            b == self.wf(),
    {
        let dim: u8 = days_in_month_of(self.year, self.month);
        1 <= self.year && self.year <= 9999 && 1 <= self.month && self.month <= 12
            && 1 <= self.day && self.day <= dim && self.hour <= 23 && self.minute <= 59
            && self.second <= 59 && self.nanos <= 999_999_999
    }
}

proof fn lemma_digit_round_trip(d: int)
    requires
        0 <= d < 10,
    ensures
        digit_value(digit_char(d)) == d,
{
}

#[verifier::rlimit(100)]
proof fn lemma_sp_two_pad2(n: int, rest: Seq<char>)
    requires
        0 <= n < 100,
    ensures
        sp_two(pad2(n) + rest) == Some((n, rest)),
{
    let s = pad2(n) + rest;
    assert(s[0] == digit_char(n / 10 % 10));
    assert(s[1] == digit_char(n % 10));
    lemma_digit_round_trip(n / 10 % 10);
    lemma_digit_round_trip(n % 10);
    assert(n / 10 % 10 == n / 10);
    assert(digit_value(s[0]) * 10 + digit_value(s[1]) == n);
    assert(s.skip(2) =~= rest);
}

#[verifier::rlimit(100)]
proof fn lemma_sp_four_pad4(n: int, rest: Seq<char>)
    requires
        0 <= n < 10000,
    ensures
        sp_four(pad4(n) + rest) == Some((n, rest)),
{
    let s = pad4(n) + rest;
    assert(s[0] == digit_char(n / 1000 % 10));
    assert(s[1] == digit_char(n / 100 % 10));
    assert(s[2] == digit_char(n / 10 % 10));
    assert(s[3] == digit_char(n % 10));
    lemma_digit_round_trip(n / 1000 % 10);
    lemma_digit_round_trip(n / 100 % 10);
    lemma_digit_round_trip(n / 10 % 10);
    lemma_digit_round_trip(n % 10);
    assert(n / 1000 % 10 == n / 1000);
    assert(n / 1000 * 1000 + n / 100 % 10 * 100 + n / 10 % 10 * 10 + n % 10 == n);
    assert(s.skip(4) =~= rest);
}

proof fn lemma_sp_char_cons(c: char, rest: Seq<char>)
    ensures
        sp_char(seq![c] + rest, c) == Some(rest),
{
    let s = seq![c] + rest;
    assert(s[0] == c);
    assert(s.skip(1) =~= rest);
}

proof fn lemma_digit_char_is_digit(d: int)
    ensures
        digit_value(digit_char(d)) >= 0,
{
}

proof fn lemma_digits_val_one(c: char)
    ensures
        digits_val(seq![c]) == digit_value(c),
{
    assert(seq![c].drop_last() =~= Seq::<char>::empty());
    assert(digits_val(Seq::<char>::empty()) == 0);
}

proof fn lemma_digits_val_pad2(n: int)
    requires
        0 <= n,
    ensures
        digits_val(pad2(n)) == n % 100,
        forall|x: int| 0 <= x < 2 ==> digit_value(#[trigger] pad2(n)[x]) >= 0,
{
    let s = pad2(n);
    lemma_digit_round_trip(n / 10 % 10);
    lemma_digit_round_trip(n % 10);
    assert(s.drop_last() =~= seq![digit_char(n / 10 % 10)]);
    lemma_digits_val_one(digit_char(n / 10 % 10));
    assert(s.last() == digit_char(n % 10));
    assert(digits_val(s) == n / 10 % 10 * 10 + n % 10);
    assert(n / 10 % 10 * 10 + n % 10 == n % 100) by {
        lemma_breakdown(n, 10, 10);
    }
    assert forall|x: int| 0 <= x < 2 implies digit_value(#[trigger] pad2(n)[x]) >= 0 by {
        lemma_digit_char_is_digit(n / 10 % 10);
        lemma_digit_char_is_digit(n % 10);
    }
}

proof fn lemma_digits_val_pad3(n: int)
    requires
        0 <= n,
    ensures
        digits_val(pad3(n)) == n % 1000,
        pad3(n).len() == 3,
        forall|x: int| 0 <= x < 3 ==> digit_value(#[trigger] pad3(n)[x]) >= 0,
{
    lemma_digit_round_trip(n / 100 % 10);
    lemma_digits_val_pad2(n);
    lemma_digits_val_one(digit_char(n / 100 % 10));
    lemma_digits_val_concat(seq![digit_char(n / 100 % 10)], pad2(n));
    reveal_with_fuel(pow10, 3);
    assert forall|x: int| 0 <= x < 3 implies digit_value(#[trigger] pad3(n)[x]) >= 0 by {
        lemma_digit_char_is_digit(n / 100 % 10);
        lemma_digit_char_is_digit(n / 10 % 10);
        lemma_digit_char_is_digit(n % 10);
        assert(pad3(n)[0] == digit_char(n / 100 % 10));
        if x >= 1 {
            assert(pad3(n)[x] == pad2(n)[x - 1]);
        }
    }
    assert(digits_val(pad3(n)) == n / 100 % 10 * 100 + n % 100);
    assert(n / 100 % 10 * 100 + n % 100 == n % 1000) by {
        lemma_breakdown(n, 100, 10);
    }
}

proof fn lemma_digits_val_head3(a: int, b: int, c: int)
    requires
        0 <= a < 10,
        0 <= b < 10,
        0 <= c < 10,
    ensures
        digits_val(seq![digit_char(a), digit_char(b), digit_char(c)]) == a * 100 + b * 10 + c,
{
    lemma_digit_round_trip(a);
    lemma_digit_round_trip(b);
    lemma_digit_round_trip(c);
    let s = seq![digit_char(a), digit_char(b), digit_char(c)];
    assert(s.drop_last() =~= seq![digit_char(a), digit_char(b)]);
    assert(s.drop_last().drop_last() =~= seq![digit_char(a)]);
    lemma_digits_val_one(digit_char(a));
    assert(digits_val(s.drop_last()) == a * 10 + b);
    assert(digits_val(s) == (a * 10 + b) * 10 + c);
}

proof fn lemma_digits_val_pad6(n: int)
    requires
        0 <= n,
    ensures
        digits_val(pad6(n)) == n % 1_000_000,
        pad6(n).len() == 6,
        forall|x: int| 0 <= x < 6 ==> digit_value(#[trigger] pad6(n)[x]) >= 0,
{
    let h = seq![
        digit_char(n / 100_000 % 10),
        digit_char(n / 10_000 % 10),
        digit_char(n / 1000 % 10),
    ];
    lemma_digits_val_head3(n / 100_000 % 10, n / 10_000 % 10, n / 1000 % 10);
    lemma_digits_val_pad3(n);
    lemma_digits_val_concat(h, pad3(n));
    reveal_with_fuel(pow10, 4);
    assert forall|x: int| 0 <= x < 6 implies digit_value(#[trigger] pad6(n)[x]) >= 0 by {
        if x < 3 {
            lemma_digit_char_is_digit(if x == 0 {
                n / 100_000 % 10
            } else if x == 1 {
                n / 10_000 % 10
            } else {
                n / 1000 % 10
            });
        }
    }
    assert(digits_val(pad6(n)) == (n / 100_000 % 10 * 100 + n / 10_000 % 10 * 10 + n / 1000
        % 10) * 1000 + n % 1000);
    assert(n / 100_000 % 10 * 100 + n / 10_000 % 10 * 10 + n / 1000 % 10 == n / 1000 % 1000)
        by {
        let m = n / 1000;
        lemma_div_denominator(n, 1000, 100);
        lemma_div_denominator(n, 1000, 10);
        lemma_breakdown(m, 100, 10);
        lemma_breakdown(m, 10, 10);
    }
    assert(n / 1000 % 1000 * 1000 + n % 1000 == n % 1_000_000) by {
        lemma_breakdown(n, 1000, 1000);
    }
}

proof fn lemma_digits_val_pad9(n: int)
    requires
        0 <= n,
    ensures
        digits_val(pad9(n)) == n % 1_000_000_000,
        pad9(n).len() == 9,
        forall|x: int| 0 <= x < 9 ==> digit_value(#[trigger] pad9(n)[x]) >= 0,
{
    let h = seq![
        digit_char(n / 100_000_000 % 10),
        digit_char(n / 10_000_000 % 10),
        digit_char(n / 1_000_000 % 10),
    ];
    lemma_digits_val_head3(n / 100_000_000 % 10, n / 10_000_000 % 10, n / 1_000_000 % 10);
    lemma_digits_val_pad6(n);
    lemma_digits_val_concat(h, pad6(n));
    reveal_with_fuel(pow10, 7);
    assert forall|x: int| 0 <= x < 9 implies digit_value(#[trigger] pad9(n)[x]) >= 0 by {
        if x < 3 {
            lemma_digit_char_is_digit(if x == 0 {
                n / 100_000_000 % 10
            } else if x == 1 {
                n / 10_000_000 % 10
            } else {
                n / 1_000_000 % 10
            });
        }
    }
    assert(digits_val(pad9(n)) == (n / 100_000_000 % 10 * 100 + n / 10_000_000 % 10 * 10 + n
        / 1_000_000 % 10) * 1_000_000 + n % 1_000_000);
    assert(n / 100_000_000 % 10 * 100 + n / 10_000_000 % 10 * 10 + n / 1_000_000 % 10 == n
        / 1_000_000 % 1000) by {
        let m = n / 1_000_000;
        lemma_div_denominator(n, 1_000_000, 100);
        lemma_div_denominator(n, 1_000_000, 10);
        lemma_breakdown(m, 100, 10);
        lemma_breakdown(m, 10, 10);
    }
    assert(n / 1_000_000 % 1000 * 1_000_000 + n % 1_000_000 == n % 1_000_000_000) by {
        lemma_breakdown(n, 1_000_000, 1000);
    }
}

proof fn lemma_digits_val_concat(a: Seq<char>, b: Seq<char>)
    ensures
        digits_val(a + b) == digits_val(a) * pow10(b.len() as int) + digits_val(b),
    decreases b.len(),
{
    reveal_with_fuel(pow10, 2);
    if b.len() == 0 {
        assert(a + b =~= a);
    } else {
        lemma_digits_val_concat(a, b.drop_last());
        assert((a + b).drop_last() =~= a + b.drop_last());
        assert((a + b).last() == b.last());
        let p = pow10(b.len() as int - 1);
        assert(digits_val(a + b) == (digits_val(a) * p + digits_val(b.drop_last())) * 10
            + digit_value(b.last()));
        assert((digits_val(a) * p) * 10 == digits_val(a) * (10 * p)) by (nonlinear_arith);
        assert((digits_val(a) * p + digits_val(b.drop_last())) * 10 == digits_val(a) * p * 10
            + digits_val(b.drop_last()) * 10) by (nonlinear_arith);
    }
}

#[verifier::rlimit(100)]
proof fn lemma_sp_frac_of_format(nanos: int, off: Seq<char>)
    requires
        0 <= nanos <= 999_999_999,
        off.len() >= 1,
        off[0] == '+',
    ensures
        sp_frac(frac_part(nanos) + off) == Some((nanos, off)),
{
    reveal_with_fuel(pow10, 11);
    let s = frac_part(nanos) + off;
    if nanos == 0 {
        assert(s =~= off);
        assert(s[0] == '+');
    } else if nanos % 1_000_000 == 0 {
        let m = nanos / 1_000_000;
        lemma_digits_val_pad3(m);
        let body = pad3(m);
        assert(s =~= seq!['.'] + (body + off));
        assert(s[0] == '.');
        assert(s.skip(1) =~= body + off);
        let w = body + off;
        assert(forall|x: int| 0 <= x < 3 ==> digit_value(#[trigger] w[x]) >= 0);
        assert(digit_value(w[3]) < 0);
        lemma_digit_run_stops(w, 3);
        assert(w.take(3) =~= body);
        assert(w.skip(3) =~= off);
        assert(s.skip(4int) =~= off);
        assert(pow10(6) == 1_000_000);
        assert(nanos == m * 1_000_000);
    } else if nanos % 1000 == 0 {
        let m = nanos / 1000;
        lemma_digits_val_pad6(m);
        let body = pad6(m);
        assert(s =~= seq!['.'] + (body + off));
        assert(s[0] == '.');
        assert(s.skip(1) =~= body + off);
        let w = body + off;
        assert(forall|x: int| 0 <= x < 6 ==> digit_value(#[trigger] w[x]) >= 0);
        assert(digit_value(w[6]) < 0);
        lemma_digit_run_stops(w, 6);
        assert(w.take(6) =~= body);
        assert(w.skip(6) =~= off);
        assert(s.skip(7int) =~= off);
        assert(pow10(3) == 1000);
        assert(nanos == m * 1000);
    } else {
        let m = nanos;
        lemma_digits_val_pad9(m);
        let body = pad9(m);
        assert(s =~= seq!['.'] + (body + off));
        assert(s[0] == '.');
        assert(s.skip(1) =~= body + off);
        let w = body + off;
        assert(forall|x: int| 0 <= x < 9 ==> digit_value(#[trigger] w[x]) >= 0);
        assert(digit_value(w[9]) < 0);
        lemma_digit_run_stops(w, 9);
        assert(w.take(9) =~= body);
        assert(w.skip(9) =~= off);
        assert(s.skip(10int) =~= off);
        assert(pow10(0) == 1);
        assert(nanos == m * 1);
    }
}

/// Writing a valid timestamp and reading the notation back yields the same
/// timestamp.
#[verifier::rlimit(100)]
pub proof fn lemma_rfc3339_round_trip(t: Timestamp)
    requires
        t.wf(),
    ensures
        parse_rfc3339_v(rfc3339(t)) == Some(t),
{
    reveal(rfc3339);
    reveal(parse_rfc3339_v);
    let off = seq!['+', '0', '0', ':', '0', '0'];
    let r12 = frac_part(t.nanos as int) + off;
    let r11 = pad2(t.second as int) + r12;
    let r10 = seq![':'] + r11;
    let r9 = pad2(t.minute as int) + r10;
    let r8 = seq![':'] + r9;
    let r7 = pad2(t.hour as int) + r8;
    let r6 = seq!['T'] + r7;
    let r5 = pad2(t.day as int) + r6;
    let r4 = seq!['-'] + r5;
    let r3 = pad2(t.month as int) + r4;
    let r2 = seq!['-'] + r3;
    let r1 = pad4(t.year as int) + r2;
    assert(rfc3339(t) =~= r1);
    lemma_sp_four_pad4(t.year as int, r2);
    lemma_sp_char_cons('-', r3);
    lemma_sp_two_pad2(t.month as int, r4);
    lemma_sp_char_cons('-', r5);
    lemma_sp_two_pad2(t.day as int, r6);
    lemma_sp_char_cons('T', r7);
    lemma_sp_two_pad2(t.hour as int, r8);
    lemma_sp_char_cons(':', r9);
    lemma_sp_two_pad2(t.minute as int, r10);
    lemma_sp_char_cons(':', r11);
    lemma_sp_two_pad2(t.second as int, r12);
    lemma_sp_frac_of_format(t.nanos as int, off);
    assert(sp_utc_offset(off));
}

/// A name for what `chrono` computes: the civil UTC date and time at a given
/// number of seconds after the epoch.
pub uninterp spec fn civil_of_epoch(secs: i64) -> Timestamp;

/// The last epoch second with a four-digit year, the end of 9999.
pub const MAX_EPOCH_SECONDS: i64 = 253402300799;

/// Relies on `chrono::DateTime::from_timestamp`: the civil UTC date and time
/// at the given epoch seconds, which for the admitted range is a valid
/// calendar date with a four-digit year and no subsecond part.
#[verifier::external_body]
pub fn from_epoch_seconds(secs: i64) -> (t: Timestamp)
    requires
        0 <= secs <= MAX_EPOCH_SECONDS,
    ensures
        t == civil_of_epoch(secs),
        t.wf(),
        t.nanos == 0,
{
    let dt = chrono::DateTime::<chrono::Utc>::from_timestamp(secs, 0).expect("seconds in range");
    Timestamp {
        year: dt.year() as u16,
        month: dt.month() as u8,
        day: dt.day() as u8,
        hour: dt.hour() as u8,
        minute: dt.minute() as u8,
        second: dt.second() as u8,
        nanos: 0,
    }
}

} // verus!
