//! Reading typed fields out of JSON objects, and writing them back.
//!
//! The resource codecs are built from these helpers.  Each spec function
//! describes exactly when a field of the wanted shape is present, and each
//! executable getter returns precisely what its spec function describes.
//! A missing field, a field of another shape, or an out-of-range number is
//! a [`DecodeError`]; an optional field holds `null` for "absent".

use vstd::prelude::*;

use crate::json::{JsonValue, JsonV, JsonNum, obj_get_v, obj_get, fields_deep};
use crate::timestamp::{Timestamp, parse_rfc3339_v, parse_rfc3339, rfc3339};

verus! {

/// A response or request body that does not have the expected shape.
#[derive(Debug, Clone, Copy, PartialEq, Eq)]
pub struct DecodeError;

/// The field's value as an unsigned integer.
pub open spec fn v_u64(f: Seq<(Seq<char>, JsonV)>, key: Seq<char>) -> Option<u64> {
    match obj_get_v(f, key) {
        Some(JsonV::Num(n)) => if 0 <= n <= u64::MAX {
            Some(n as u64)
        } else {
            None
        },
        _ => None,
    }
}

/// The field's value as a 32-bit unsigned integer.
pub open spec fn v_u32(f: Seq<(Seq<char>, JsonV)>, key: Seq<char>) -> Option<u32> {
    match obj_get_v(f, key) {
        Some(JsonV::Num(n)) => if 0 <= n <= u32::MAX {
            Some(n as u32)
        } else {
            None
        },
        _ => None,
    }
}

/// The field's value as a 32-bit signed integer.
pub open spec fn v_i32(f: Seq<(Seq<char>, JsonV)>, key: Seq<char>) -> Option<i32> {
    match obj_get_v(f, key) {
        Some(JsonV::Num(n)) => if i32::MIN <= n <= i32::MAX {
            Some(n as i32)
        } else {
            None
        },
        _ => None,
    }
}

/// The field's value as a boolean.
pub open spec fn v_bool(f: Seq<(Seq<char>, JsonV)>, key: Seq<char>) -> Option<bool> {
    match obj_get_v(f, key) {
        Some(JsonV::Bool(b)) => Some(b),
        _ => None,
    }
}

/// The field's value as a string.
pub open spec fn v_str(f: Seq<(Seq<char>, JsonV)>, key: Seq<char>) -> Option<Seq<char>> {
    match obj_get_v(f, key) {
        Some(JsonV::Str(s)) => Some(s),
        _ => None,
    }
}

/// The field's value as a string or `null`.
pub open spec fn v_opt_str(f: Seq<(Seq<char>, JsonV)>, key: Seq<char>) -> Option<
    Option<Seq<char>>,
> {
    match obj_get_v(f, key) {
        Some(JsonV::Str(s)) => Some(Some(s)),
        Some(JsonV::Null) => Some(None),
        _ => None,
    }
}

/// The field's value as an RFC 3339 timestamp.
pub open spec fn v_time(f: Seq<(Seq<char>, JsonV)>, key: Seq<char>) -> Option<Timestamp> {
    match v_str(f, key) {
        Some(s) => parse_rfc3339_v(s),
        None => None,
    }
}

/// The field's value as an RFC 3339 timestamp or `null`.
pub open spec fn v_opt_time(f: Seq<(Seq<char>, JsonV)>, key: Seq<char>) -> Option<
    Option<Timestamp>,
> {
    match obj_get_v(f, key) {
        Some(JsonV::Str(s)) => match parse_rfc3339_v(s) {
            Some(t) => Some(Some(t)),
            None => None,
        },
        Some(JsonV::Null) => Some(None),
        _ => None,
    }
}

/// The field's value as an unsigned integer or `null`.
pub open spec fn v_opt_u64(f: Seq<(Seq<char>, JsonV)>, key: Seq<char>) -> Option<Option<u64>> {
    match obj_get_v(f, key) {
        Some(JsonV::Num(n)) => if 0 <= n <= u64::MAX {
            Some(Some(n as u64))
        } else {
            None
        },
        Some(JsonV::Null) => Some(None),
        _ => None,
    }
}

/// The values of an array wholly of unsigned integers.
pub open spec fn nums_of(elems: Seq<JsonV>) -> Option<Seq<u64>>
    decreases elems.len(),
{
    if elems.len() == 0 {
        Some(Seq::empty())
    } else {
        match elems[0] {
            JsonV::Num(n) => if 0 <= n <= u64::MAX {
                match nums_of(elems.drop_first()) {
                    Some(rest) => Some(seq![n as u64] + rest),
                    None => None,
                }
            } else {
                None
            },
            _ => None,
        }
    }
}

/// The values of an array wholly of strings.
pub open spec fn strs_of(elems: Seq<JsonV>) -> Option<Seq<Seq<char>>>
    decreases elems.len(),
{
    if elems.len() == 0 {
        Some(Seq::empty())
    } else {
        match elems[0] {
            JsonV::Str(s) => match strs_of(elems.drop_first()) {
                Some(rest) => Some(seq![s] + rest),
                None => None,
            },
            _ => None,
        }
    }
}

/// The field's value as an array of unsigned integers.
pub open spec fn v_u64_seq(f: Seq<(Seq<char>, JsonV)>, key: Seq<char>) -> Option<Seq<u64>> {
    match obj_get_v(f, key) {
        Some(JsonV::Array(elems)) => nums_of(elems),
        _ => None,
    }
}

/// The field's value as an array of strings.
pub open spec fn v_str_seq(f: Seq<(Seq<char>, JsonV)>, key: Seq<char>) -> Option<
    Seq<Seq<char>>,
> {
    match obj_get_v(f, key) {
        Some(JsonV::Array(elems)) => strs_of(elems),
        _ => None,
    }
}

/// Reads an unsigned integer field.
pub fn get_u64(f: &Vec<(String, JsonValue)>, key: &str) -> (r: Result<u64, DecodeError>)
    ensures
        match r {
            Ok(x) => v_u64(fields_deep(f@), key@) == Some(x),
            Err(_) => v_u64(fields_deep(f@), key@) is None,
        },
{
    match obj_get(f, key) {
        Some(JsonValue::Num(n)) => {
            if n.neg {
                if n.mag == 0 {
                    Ok(0)
                } else {
                    Err(DecodeError)
                }
            } else {
                Ok(n.mag)
            }
        },
        _ => Err(DecodeError),
    }
}

/// Reads a 32-bit unsigned integer field.
pub fn get_u32(f: &Vec<(String, JsonValue)>, key: &str) -> (r: Result<u32, DecodeError>)
    ensures
        match r {
            Ok(x) => v_u32(fields_deep(f@), key@) == Some(x),
            Err(_) => v_u32(fields_deep(f@), key@) is None,
        },
{
    match obj_get(f, key) {
        Some(JsonValue::Num(n)) => {
            if n.neg {
                if n.mag == 0 {
                    Ok(0)
                } else {
                    Err(DecodeError)
                }
            } else if n.mag <= u32::MAX as u64 {
                Ok(n.mag as u32)
            } else {
                Err(DecodeError)
            }
        },
        _ => Err(DecodeError),
    }
}

/// Reads a 32-bit signed integer field.
pub fn get_i32(f: &Vec<(String, JsonValue)>, key: &str) -> (r: Result<i32, DecodeError>)
    ensures
        match r {
            Ok(x) => v_i32(fields_deep(f@), key@) == Some(x),
            Err(_) => v_i32(fields_deep(f@), key@) is None,
        },
{
    match obj_get(f, key) {
        Some(JsonValue::Num(n)) => {
            if n.neg {
                if n.mag <= 2147483648u64 {
                    proof {
                        assert(-(n.mag as int) >= i32::MIN);
                    }
                    if n.mag == 2147483648u64 {
                        Ok(i32::MIN)
                    } else {
                        Ok(-(n.mag as i32))
                    }
                } else {
                    Err(DecodeError)
                }
            } else {
                if n.mag <= i32::MAX as u64 {
                    Ok(n.mag as i32)
                } else {
                    Err(DecodeError)
                }
            }
        },
        _ => Err(DecodeError),
    }
}

/// Reads a boolean field.
pub fn get_bool(f: &Vec<(String, JsonValue)>, key: &str) -> (r: Result<bool, DecodeError>)
    ensures
        match r {
            Ok(x) => v_bool(fields_deep(f@), key@) == Some(x),
            Err(_) => v_bool(fields_deep(f@), key@) is None,
        },
{
    match obj_get(f, key) {
        Some(JsonValue::Bool(b)) => Ok(*b),
        _ => Err(DecodeError),
    }
}

/// Reads a string field.
pub fn get_string(f: &Vec<(String, JsonValue)>, key: &str) -> (r: Result<String, DecodeError>)
    ensures
        match r {
            Ok(x) => v_str(fields_deep(f@), key@) == Some(x@),
            Err(_) => v_str(fields_deep(f@), key@) is None,
        },
{
    match obj_get(f, key) {
        Some(JsonValue::Str(s)) => Ok(s.clone()),
        _ => Err(DecodeError),
    }
}

/// Reads a string-or-null field.
pub fn get_opt_string(f: &Vec<(String, JsonValue)>, key: &str) -> (r: Result<
    Option<String>,
    DecodeError,
>)
    ensures
        match r {
            Ok(x) => v_opt_str(fields_deep(f@), key@) == Some(
                match x {
                    Some(s) => Some(s@),
                    None => None,
                },
            ),
            Err(_) => v_opt_str(fields_deep(f@), key@) is None,
        },
{
    match obj_get(f, key) {
        Some(JsonValue::Str(s)) => Ok(Some(s.clone())),
        Some(JsonValue::Null) => Ok(None),
        _ => Err(DecodeError),
    }
}

/// Reads a timestamp field.
pub fn get_time(f: &Vec<(String, JsonValue)>, key: &str) -> (r: Result<Timestamp, DecodeError>)
    ensures
        match r {
            Ok(x) => v_time(fields_deep(f@), key@) == Some(x),
            Err(_) => v_time(fields_deep(f@), key@) is None,
        },
{
    match obj_get(f, key) {
        Some(JsonValue::Str(s)) => {
            let chars: Vec<char> = crate::num::str_to_chars(s.as_str());
            match parse_rfc3339(chars.as_slice()) {
                Some(t) => Ok(t),
                None => Err(DecodeError),
            }
        },
        _ => Err(DecodeError),
    }
}

/// Reads a timestamp-or-null field.
pub fn get_opt_time(f: &Vec<(String, JsonValue)>, key: &str) -> (r: Result<
    Option<Timestamp>,
    DecodeError,
>)
    ensures
        match r {
            Ok(x) => v_opt_time(fields_deep(f@), key@) == Some(x),
            Err(_) => v_opt_time(fields_deep(f@), key@) is None,
        },
{
    match obj_get(f, key) {
        Some(JsonValue::Str(s)) => {
            let chars: Vec<char> = crate::num::str_to_chars(s.as_str());
            match parse_rfc3339(chars.as_slice()) {
                Some(t) => Ok(Some(t)),
                None => Err(DecodeError),
            }
        },
        Some(JsonValue::Null) => Ok(None),
        _ => Err(DecodeError),
    }
}

/// Reads an unsigned-integer-or-null field.
pub fn get_opt_u64(f: &Vec<(String, JsonValue)>, key: &str) -> (r: Result<
    Option<u64>,
    DecodeError,
>)
    ensures
        match r {
            Ok(x) => v_opt_u64(fields_deep(f@), key@) == Some(x),
            Err(_) => v_opt_u64(fields_deep(f@), key@) is None,
        },
{
    match obj_get(f, key) {
        Some(JsonValue::Num(n)) => {
            if n.neg {
                if n.mag == 0 {
                    Ok(Some(0))
                } else {
                    Err(DecodeError)
                }
            } else {
                Ok(Some(n.mag))
            }
        },
        Some(JsonValue::Null) => Ok(None),
        _ => Err(DecodeError),
    }
}

proof fn lemma_nums_of_head_bad(s: Seq<JsonV>)
    requires
        s.len() > 0,
        match s[0] {
            JsonV::Num(n) => !(0 <= n <= u64::MAX),
            _ => true,
        },
    ensures
        nums_of(s) is None,
{
}

proof fn lemma_strs_of_head_bad(s: Seq<JsonV>)
    requires
        s.len() > 0,
        !(s[0] is Str),
    ensures
        strs_of(s) is None,
{
}

/// Reads an array field wholly of unsigned integers.
pub fn get_u64_vec(f: &Vec<(String, JsonValue)>, key: &str) -> (r: Result<
    Vec<u64>,
    DecodeError,
>)
    ensures
        match r {
            Ok(x) => v_u64_seq(fields_deep(f@), key@) == Some(x@),
            Err(_) => v_u64_seq(fields_deep(f@), key@) is None,
        },
{
    match obj_get(f, key) {
        Some(JsonValue::Array(elems)) => {
            let mut out: Vec<u64> = Vec::new();
            let mut i: usize = 0;
            let ghost ev = crate::json::deep_seq(elems@);
            proof {
                crate::json::lemma_deep_seq(elems@);
                assert(ev.skip(0) =~= ev);
                assert(nums_of(ev) is Some ==> Seq::<u64>::empty() + nums_of(ev).unwrap()
                    =~= nums_of(ev).unwrap());
            }
            while i < elems.len()
                invariant
                    i <= elems@.len(),
                    ev == crate::json::deep_seq(elems@),
                    ev.len() == elems@.len(),
                    forall|k: int|
                        0 <= k < elems@.len() ==> ev[k] == (#[trigger] elems@[k]).deep(),
                    obj_get_v(fields_deep(f@), key@) == Some(JsonV::Array(ev)),
                    nums_of(ev) is Some <==> nums_of(ev.skip(i as int)) is Some,
                    nums_of(ev) is Some ==> nums_of(ev).unwrap() == out@ + nums_of(
                        ev.skip(i as int),
                    ).unwrap(),
                decreases elems@.len() - i,
            {
                proof {
                    assert(ev.skip(i as int).len() == ev.len() - i);
                    assert(ev.skip(i as int)[0] == ev[i as int]);
                    assert(ev.skip(i as int).drop_first() =~= ev.skip(i as int + 1));
                }
                let ok: bool = match &elems[i] {
                    JsonValue::Num(n) => !n.neg || n.mag == 0,
                    _ => false,
                };
                if !ok {
                    proof {
                        assert(ev[i as int] == elems@[i as int].deep());
                        assert(ev.skip(i as int).len() > 0);
                        assert(ev.skip(i as int)[0] == ev[i as int]);
                        lemma_nums_of_head_bad(ev.skip(i as int));
                        assert(nums_of(ev.skip(i as int)) is None);
                        assert(obj_get_v(fields_deep(f@), key@) == Some(JsonV::Array(ev)));
                    }
                    return Err(DecodeError);
                }
                let x: u64 = match &elems[i] {
                    JsonValue::Num(n) => if n.neg {
                        0
                    } else {
                        n.mag
                    },
                    _ => 0,
                };
                proof {
                    let tail = nums_of(ev.skip(i as int + 1));
                    if tail is Some {
                        assert(nums_of(ev.skip(i as int)) == Some(
                            seq![x] + tail.unwrap(),
                        ));
                        assert(out@.push(x) + tail.unwrap() =~= out@ + (seq![x]
                            + tail.unwrap()));
                    }
                }
                out.push(x);
                i = i + 1;
            }
            proof {
                assert(ev.skip(i as int).len() == 0);
                assert(nums_of(ev.skip(i as int)) == Some(Seq::<u64>::empty()));
                assert(nums_of(ev) is Some);
                assert(nums_of(ev).unwrap() =~= out@);
                assert(nums_of(ev) == Some(out@));
                assert(obj_get_v(fields_deep(f@), key@) == Some(JsonV::Array(ev)));
                assert(v_u64_seq(fields_deep(f@), key@) == Some(out@));
            }
            Ok(out)
        },
        _ => Err(DecodeError),
    }
}

/// Reads an array field wholly of strings.
pub fn get_string_vec(f: &Vec<(String, JsonValue)>, key: &str) -> (r: Result<
    Vec<String>,
    DecodeError,
>)
    ensures
        match r {
            Ok(x) => v_str_seq(fields_deep(f@), key@) == Some(
                x@.map_values(|s: String| s@),
            ),
            Err(_) => v_str_seq(fields_deep(f@), key@) is None,
        },
{
    match obj_get(f, key) {
        Some(JsonValue::Array(elems)) => {
            let mut out: Vec<String> = Vec::new();
            let mut i: usize = 0;
            let ghost ev = crate::json::deep_seq(elems@);
            proof {
                crate::json::lemma_deep_seq(elems@);
                assert(ev.skip(0) =~= ev);
                assert(out@.map_values(|s: String| s@) =~= Seq::<Seq<char>>::empty());
                assert(strs_of(ev) is Some ==> Seq::<Seq<char>>::empty() + strs_of(
                    ev,
                ).unwrap() =~= strs_of(ev).unwrap());
            }
            while i < elems.len()
                invariant
                    i <= elems@.len(),
                    ev == crate::json::deep_seq(elems@),
                    ev.len() == elems@.len(),
                    forall|k: int|
                        0 <= k < elems@.len() ==> ev[k] == (#[trigger] elems@[k]).deep(),
                    obj_get_v(fields_deep(f@), key@) == Some(JsonV::Array(ev)),
                    strs_of(ev) is Some <==> strs_of(ev.skip(i as int)) is Some,
                    strs_of(ev) is Some ==> strs_of(ev).unwrap() == out@.map_values(
                        |s: String| s@,
                    ) + strs_of(ev.skip(i as int)).unwrap(),
                decreases elems@.len() - i,
            {
                proof {
                    assert(ev.skip(i as int).len() == ev.len() - i);
                    assert(ev.skip(i as int)[0] == ev[i as int]);
                    assert(ev.skip(i as int).drop_first() =~= ev.skip(i as int + 1));
                }
                let x: String = match &elems[i] {
                    JsonValue::Str(sv) => sv.clone(),
                    _ => {
                        proof {
                            assert(ev[i as int] == elems@[i as int].deep());
                            assert(ev.skip(i as int).len() > 0);
                            assert(ev.skip(i as int)[0] == ev[i as int]);
                            lemma_strs_of_head_bad(ev.skip(i as int));
                            assert(strs_of(ev.skip(i as int)) is None);
                            assert(obj_get_v(fields_deep(f@), key@) == Some(
                                JsonV::Array(ev),
                            ));
                        }
                        return Err(DecodeError);
                    },
                };
                proof {
                    let tail = strs_of(ev.skip(i as int + 1));
                    if tail is Some {
                        assert(strs_of(ev.skip(i as int)) == Some(
                            seq![x@] + tail.unwrap(),
                        ));
                        assert(out@.push(x).map_values(|s: String| s@) =~= out@.map_values(
                            |s: String| s@,
                        ).push(x@));
                        assert(out@.map_values(|s: String| s@).push(x@) + tail.unwrap()
                            =~= out@.map_values(|s: String| s@) + (seq![x@]
                            + tail.unwrap()));
                    }
                }
                out.push(x);
                i = i + 1;
            }
            proof {
                assert(ev.skip(i as int).len() == 0);
                assert(strs_of(ev.skip(i as int)) == Some(Seq::<Seq<char>>::empty()));
                assert(strs_of(ev) is Some);
                assert(strs_of(ev).unwrap() =~= out@.map_values(|s: String| s@));
                assert(strs_of(ev) == Some(out@.map_values(|s: String| s@)));
                assert(obj_get_v(fields_deep(f@), key@) == Some(JsonV::Array(ev)));
                assert(v_str_seq(fields_deep(f@), key@) == Some(out@.map_values(|s: String| s@)));
            }
            Ok(out)
        },
        _ => Err(DecodeError),
    }
}

/// An array node of unsigned integers.
pub fn arr_u64(xs: &Vec<u64>) -> (r: JsonValue)
    ensures
        r.deep() == JsonV::Array(xs@.map_values(|x: u64| JsonV::Num(x as int))),
        r.wf(),
{
    let mut elems: Vec<JsonValue> = Vec::new();
    let mut i: usize = 0;
    while i < xs.len()
        invariant
            i <= xs@.len(),
            elems@.len() == i,
            forall|k: int|
                0 <= k < i ==> (#[trigger] elems@[k]).deep() == JsonV::Num(xs@[k] as int)
                    && elems@[k].wf(),
        decreases xs@.len() - i,
    {
        let e = JsonValue::of_u64(xs[i]);
        elems.push(e);
        i = i + 1;
    }
    proof {
        crate::json::lemma_deep_seq(elems@);
        let target = xs@.map_values(|x: u64| JsonV::Num(x as int));
        assert(target.len() == xs@.len());
        assert forall|k: int| 0 <= k < xs@.len() implies crate::json::deep_seq(elems@)[k]
            == target[k] by {
            assert(crate::json::deep_seq(elems@)[k] == elems@[k].deep());
            assert(target[k] == JsonV::Num(xs@[k] as int));
        }
        assert(crate::json::deep_seq(elems@) =~= target);
    }
    JsonValue::Array(elems)
}

/// An array node of strings.
pub fn arr_strings(xs: &Vec<String>) -> (r: JsonValue)
    ensures
        r.deep() == JsonV::Array(xs@.map_values(|s: String| JsonV::Str(s@))),
        r.wf(),
{
    let mut elems: Vec<JsonValue> = Vec::new();
    let mut i: usize = 0;
    while i < xs.len()
        invariant
            i <= xs@.len(),
            elems@.len() == i,
            forall|k: int|
                0 <= k < i ==> (#[trigger] elems@[k]).deep() == JsonV::Str(xs@[k]@)
                    && elems@[k].wf(),
        decreases xs@.len() - i,
    {
        let e = JsonValue::of_string(&xs[i]);
        elems.push(e);
        i = i + 1;
    }
    proof {
        crate::json::lemma_deep_seq(elems@);
        let target = xs@.map_values(|s: String| JsonV::Str(s@));
        assert(target.len() == xs@.len());
        assert forall|k: int| 0 <= k < xs@.len() implies crate::json::deep_seq(elems@)[k]
            == target[k] by {
            assert(crate::json::deep_seq(elems@)[k] == elems@[k].deep());
            assert(target[k] == JsonV::Str(xs@[k]@));
        }
        assert(crate::json::deep_seq(elems@) =~= target);
    }
    JsonValue::Array(elems)
}

/// Compares two string slices by their characters.
pub fn str_eq(a: &str, b: &str) -> (r: bool)
    ensures
        r == (a@ == b@),
{
    let sa: String = a.to_owned();
    let sb: String = b.to_owned();
    sa == sb
}

/// A string node with a timestamp's RFC 3339 notation.
pub fn time_json(t: &Timestamp) -> (r: JsonValue)
    requires
        t.wf(),
    ensures
        r.deep() == JsonV::Str(rfc3339(*t)),
        r.wf(),
{
    JsonValue::Str(t.to_rfc3339())
}

/// A timestamp or `null`.
pub fn opt_time_json(t: &Option<Timestamp>) -> (r: JsonValue)
    requires
        t matches Some(x) ==> x.wf(),
    ensures
        r.deep() == match *t {
            Some(x) => JsonV::Str(rfc3339(x)),
            None => JsonV::Null,
        },
        r.wf(),
{
    match t {
        Some(x) => JsonValue::Str(x.to_rfc3339()),
        None => JsonValue::Null,
    }
}

/// A string or `null`.
pub fn opt_str_json(s: &Option<String>) -> (r: JsonValue)
    ensures
        r.deep() == match s {
            Some(x) => JsonV::Str(x@),
            None => JsonV::Null,
        },
        r.wf(),
{
    match s {
        Some(x) => JsonValue::Str(x.clone()),
        None => JsonValue::Null,
    }
}

} // verus!
