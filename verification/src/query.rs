//! Building query strings.
//!
//! Filters serialize into a list of query parameters; [`encode_query`]
//! writes the list in `application/x-www-form-urlencoded` notation: pairs
//! joined with `&`, a `=` between each name and value, and every character
//! outside the unreserved set percent-encoded byte by byte (a space as
//! `+`).  A parameter may also be a bare key with no value at all.

use vstd::prelude::*;

use vstd::utf8::encode_scalar;

use crate::num::{digit_char, chars_to_string};

verus! {

/// One query parameter: a name with a value, or a bare key.
#[derive(Debug, Clone, PartialEq, Eq)]
pub struct QueryParam {
    /// The parameter name.
    pub key: String,
    /// The parameter value; a bare key has none.
    pub value: Option<String>,
}

impl QueryParam {
    /// The view of this parameter.
    pub open spec fn deep(self) -> (Seq<char>, Option<Seq<char>>) {
        (
            self.key@,
            match self.value {
                Some(v) => Some(v@),
                None => None,
            },
        )
    }

    /// A parameter with a value.
    pub fn pair(key: &str, value: String) -> (r: QueryParam)
        ensures
            r.deep() == (key@, Some(value@)),
    {
        QueryParam { key: key.to_owned(), value: Some(value) }
    }

    /// A bare key.
    pub fn flag(key: &str) -> (r: QueryParam)
        ensures
            r.deep() == (key@, None::<Seq<char>>),
    {
        QueryParam { key: key.to_owned(), value: None }
    }
}

/// The views of a parameter list.
pub open spec fn params_deep(params: Seq<QueryParam>) -> Seq<(Seq<char>, Option<Seq<char>>)> {
    params.map_values(|p: QueryParam| p.deep())
}

/// The uppercase hexadecimal digit for a value below sixteen.
pub open spec fn hex_char(d: int) -> char
    recommends
        0 <= d < 16,
{
    if d < 10 {
        digit_char(d)
    } else if d == 10 {
        'A'
    } else if d == 11 {
        'B'
    } else if d == 12 {
        'C'
    } else if d == 13 {
        'D'
    } else if d == 14 {
        'E'
    } else {
        'F'
    }
}

/// The percent-encoding of one byte: `%` and two uppercase hex digits.
pub open spec fn percent_byte(b: u8) -> Seq<char> {
    seq!['%', hex_char(b as int / 16), hex_char(b as int % 16)]
}

/// The percent-encoding of a byte sequence.
pub open spec fn percent_bytes(bytes: Seq<u8>) -> Seq<char>
    decreases bytes.len(),
{
    if bytes.len() == 0 {
        Seq::empty()
    } else {
        percent_byte(bytes[0]) + percent_bytes(bytes.drop_first())
    }
}

/// Characters written as themselves: letters, digits, `*`, `-`, `.` and `_`.
pub open spec fn form_unreserved(c: char) -> bool {
    ('a' <= c && c <= 'z') || ('A' <= c && c <= 'Z') || ('0' <= c && c <= '9') || c == '*' || c
        == '-' || c == '.' || c == '_'
}

/// The form-urlencoding of one character: itself if unreserved, `+` for a
/// space, else each byte of its UTF-8 encoding percent-encoded.
pub open spec fn form_char(c: char) -> Seq<char> {
    if form_unreserved(c) {
        seq![c]
    } else if c == ' ' {
        seq!['+']
    } else {
        percent_bytes(encode_scalar(c as u32))
    }
}

/// The form-urlencoding of a string.
pub open spec fn form_str(s: Seq<char>) -> Seq<char>
    decreases s.len(),
{
    if s.len() == 0 {
        Seq::empty()
    } else {
        form_char(s[0]) + form_str(s.drop_first())
    }
}

/// The encoding of one parameter.
pub open spec fn param_str(p: (Seq<char>, Option<Seq<char>>)) -> Seq<char> {
    match p.1 {
        Some(v) => form_str(p.0) + seq!['='] + form_str(v),
        None => form_str(p.0),
    }
}

/// The whole query string: the encoded parameters joined with `&`.  An empty
/// parameter list gives the empty string.
pub open spec fn query_string(params: Seq<(Seq<char>, Option<Seq<char>>)>) -> Seq<char>
    decreases params.len(),
{
    if params.len() == 0 {
        Seq::empty()
    } else if params.len() == 1 {
        param_str(params[0])
    } else {
        param_str(params[0]) + seq!['&'] + query_string(params.drop_first())
    }
}

fn hex_of(d: u8) -> (c: char)
    requires
        d < 16,
    ensures
        c == hex_char(d as int),
{
    if d < 10 {
        crate::num::digit_to_char(d as u64)
    } else if d == 10 {
        'A'
    } else if d == 11 {
        'B'
    } else if d == 12 {
        'C'
    } else if d == 13 {
        'D'
    } else if d == 14 {
        'E'
    } else {
        'F'
    }
}

fn push_percent_byte(out: &mut Vec<char>, b: u8)
    ensures
        final(out)@ == old(out)@ + percent_byte(b),
{
    out.push('%');
    let hi: char = hex_of(b / 16);
    let lo: char = hex_of(b % 16);
    out.push(hi);
    out.push(lo);
    proof {
        assert(out@ =~= old(out)@ + percent_byte(b));
    }
}

/// The UTF-8 bytes of one character, as `vstd::utf8::encode_scalar` gives
/// them.
fn utf8_bytes(c: char) -> (r: Vec<u8>)
    ensures
        r@ == encode_scalar(c as u32),
{
    let u: u32 = c as u32;
    let mut r: Vec<u8> = Vec::new();
    if u <= 0x7F {
        r.push((u & 0x7F) as u8);
    } else if u <= 0x7FF {
        r.push(0xC0u8 | ((u >> 6) & 0x1F) as u8);
        r.push(0x80u8 | (u & 0x3F) as u8);
    } else if u <= 0xFFFF {
        r.push(0xE0u8 | ((u >> 12) & 0x0F) as u8);
        r.push(0x80u8 | ((u >> 6) & 0x3F) as u8);
        r.push(0x80u8 | (u & 0x3F) as u8);
    } else {
        r.push(0xF0u8 | ((u >> 18) & 0x7) as u8);
        r.push(0x80u8 | ((u >> 12) & 0x3F) as u8);
        r.push(0x80u8 | ((u >> 6) & 0x3F) as u8);
        r.push(0x80u8 | (u & 0x3F) as u8);
    }
    proof {
        assert(r@ =~= encode_scalar(c as u32));
    }
    r
}

fn push_form_char(out: &mut Vec<char>, c: char)
    ensures
        final(out)@ == old(out)@ + form_char(c),
{
    if ('a' <= c && c <= 'z') || ('A' <= c && c <= 'Z') || ('0' <= c && c <= '9') || c == '*'
        || c == '-' || c == '.' || c == '_' {
        out.push(c);
        proof {
            assert(out@ =~= old(out)@ + form_char(c));
        }
    } else if c == ' ' {
        out.push('+');
        proof {
            assert(out@ =~= old(out)@ + form_char(c));
        }
    } else {
        let bytes = utf8_bytes(c);
        let ghost bv = bytes@;
        let mut i: usize = 0;
        while i < bytes.len()
            invariant
                i <= bytes@.len(),
                bytes@ == bv,
                out@ == old(out)@ + percent_bytes(bv.take(i as int)),
            decreases bytes@.len() - i,
        {
            proof {
                lemma_percent_bytes_snoc(bv, i as int);
            }
            push_percent_byte(out, bytes[i]);
            i = i + 1;
        }
        proof {
            assert(bv.take(bv.len() as int) =~= bv);
        }
    }
}

proof fn lemma_percent_bytes_snoc(bytes: Seq<u8>, i: int)
    requires
        0 <= i < bytes.len(),
    ensures
        percent_bytes(bytes.take(i + 1)) == percent_bytes(bytes.take(i)) + percent_byte(
            bytes[i],
        ),
    decreases i,
{
    reveal_with_fuel(percent_bytes, 3);
    if i == 0 {
        assert(bytes.take(1) =~= seq![bytes[0]]);
        assert(bytes.take(1).drop_first() =~= Seq::<u8>::empty());
        assert(bytes.take(0) =~= Seq::<u8>::empty());
        assert(percent_bytes(bytes.take(1)) =~= percent_byte(bytes[0]));
        assert(percent_bytes(bytes.take(0)) + percent_byte(bytes[0]) =~= percent_byte(
            bytes[0],
        ));
    } else {
        lemma_percent_bytes_snoc(bytes.drop_first(), i - 1);
        assert(bytes.take(i + 1).drop_first() =~= bytes.drop_first().take(i));
        assert(bytes.take(i).drop_first() =~= bytes.drop_first().take(i - 1));
        assert(bytes.take(i + 1)[0] == bytes[0]);
        assert(bytes.take(i)[0] == bytes[0]);
        assert(bytes.drop_first()[i - 1] == bytes[i]);
        assert(percent_bytes(bytes.take(i + 1)) == percent_byte(bytes[0]) + percent_bytes(
            bytes.drop_first().take(i),
        ));
        assert(percent_bytes(bytes.take(i)) == percent_byte(bytes[0]) + percent_bytes(
            bytes.drop_first().take(i - 1),
        ));
        assert(percent_byte(bytes[0]) + (percent_bytes(bytes.drop_first().take(i - 1))
            + percent_byte(bytes[i])) =~= (percent_byte(bytes[0]) + percent_bytes(
            bytes.drop_first().take(i - 1),
        )) + percent_byte(bytes[i]));
    }
}

proof fn lemma_form_str_snoc(s: Seq<char>, i: int)
    requires
        0 <= i < s.len(),
    ensures
        form_str(s.take(i + 1)) == form_str(s.take(i)) + form_char(s[i]),
    decreases i,
{
    reveal_with_fuel(form_str, 3);
    if i == 0 {
        assert(s.take(1) =~= seq![s[0]]);
        assert(s.take(1).drop_first() =~= Seq::<char>::empty());
        assert(s.take(0) =~= Seq::<char>::empty());
        assert(form_str(s.take(1)) =~= form_char(s[0]));
        assert(form_str(s.take(0)) + form_char(s[0]) =~= form_char(s[0]));
    } else {
        lemma_form_str_snoc(s.drop_first(), i - 1);
        assert(s.take(i + 1).drop_first() =~= s.drop_first().take(i));
        assert(s.take(i).drop_first() =~= s.drop_first().take(i - 1));
        assert(s.take(i + 1)[0] == s[0]);
        assert(s.take(i)[0] == s[0]);
        assert(s.drop_first()[i - 1] == s[i]);
        assert(form_str(s.take(i + 1)) == form_char(s[0]) + form_str(s.drop_first().take(i)));
        assert(form_str(s.take(i)) == form_char(s[0]) + form_str(s.drop_first().take(i - 1)));
        assert(form_char(s[0]) + (form_str(s.drop_first().take(i - 1)) + form_char(s[i])) =~= (
        form_char(s[0]) + form_str(s.drop_first().take(i - 1))) + form_char(s[i]));
    }
}

fn push_form_str(out: &mut Vec<char>, s: &str)
    ensures
        final(out)@ == old(out)@ + form_str(s@),
{
    let chars: Vec<char> = crate::num::str_to_chars(s);
    let mut i: usize = 0;
    while i < chars.len()
        invariant
            i <= chars@.len(),
            chars@ == s@,
            out@ == old(out)@ + form_str(s@.take(i as int)),
        decreases chars@.len() - i,
    {
        proof {
            lemma_form_str_snoc(s@, i as int);
        }
        push_form_char(out, chars[i]);
        i = i + 1;
    }
    proof {
        assert(s@.take(s@.len() as int) =~= s@);
    }
}

/// Writes the query string for a parameter list.
pub fn encode_query(params: &Vec<QueryParam>) -> (r: String)
    ensures
        r@ == query_string(params_deep(params@)),
{
    let ghost pv = params_deep(params@);
    let mut out: Vec<char> = Vec::new();
    let mut i: usize = 0;
    while i < params.len()
        invariant
            i <= params@.len(),
            pv == params_deep(params@),
            pv.len() == params@.len(),
            forall|k: int| 0 <= k < params@.len() ==> pv[k] == (#[trigger] params@[k]).deep(),
            out@ == query_string(pv.take(i as int)),
        decreases params@.len() - i,
    {
        if i > 0 {
            out.push('&');
        }
        let p = &params[i];
        push_form_str(&mut out, p.key.as_str());
        match &p.value {
            Some(v) => {
                out.push('=');
                push_form_str(&mut out, v.as_str());
            },
            None => {},
        }
        proof {
            lemma_query_string_snoc(pv, i as int);
        }
        i = i + 1;
    }
    proof {
        assert(pv.take(pv.len() as int) =~= pv);
    }
    chars_to_string(&out)
}

proof fn lemma_query_string_snoc(params: Seq<(Seq<char>, Option<Seq<char>>)>, i: int)
    requires
        0 <= i < params.len(),
    ensures
        query_string(params.take(i + 1)) == if i == 0 {
            param_str(params[0])
        } else {
            query_string(params.take(i)) + seq!['&'] + param_str(params[i])
        },
    decreases i,
{
    reveal_with_fuel(query_string, 3);
    if i == 0 {
        assert(params.take(1) =~= seq![params[0]]);
    } else {
        lemma_query_string_snoc(params.drop_first(), i - 1);
        assert(params.take(i + 1).drop_first() =~= params.drop_first().take(i));
        assert(params.take(i).drop_first() =~= params.drop_first().take(i - 1));
        assert(params.take(i + 1)[0] == params[0]);
        assert(params.take(i)[0] == params[0]);
        assert(params.drop_first()[i - 1] == params[i]);
        assert(params.take(i + 1).len() == i + 1);
        if i == 1 {
            assert(query_string(params.take(2)) == param_str(params[0]) + seq!['&']
                + query_string(params.drop_first().take(1)));
            assert(query_string(params.drop_first().take(1)) == param_str(params[1]));
            assert(query_string(params.take(1)) == param_str(params[0]));
            assert(param_str(params[0]) + (seq!['&'] + param_str(params[1])) =~= (param_str(
                params[0],
            ) + seq!['&']) + param_str(params[1]));
            assert((param_str(params[0]) + seq!['&']) + param_str(params[1]) =~= query_string(
                params.take(1),
            ) + seq!['&'] + param_str(params[1]));
        } else {
            assert(query_string(params.take(i + 1)) == param_str(params[0]) + seq!['&']
                + query_string(params.drop_first().take(i)));
            assert(query_string(params.take(i)) == param_str(params[0]) + seq!['&']
                + query_string(params.drop_first().take(i - 1)));
            assert(query_string(params.drop_first().take(i)) == query_string(
                params.drop_first().take(i - 1),
            ) + seq!['&'] + param_str(params[i]));
            assert((param_str(params[0]) + seq!['&']) + (query_string(
                params.drop_first().take(i - 1),
            ) + seq!['&'] + param_str(params[i])) =~= ((param_str(params[0]) + seq!['&']
                + query_string(params.drop_first().take(i - 1))) + seq!['&']) + param_str(
                params[i],
            ));
        }
    }
}

} // verus!
