//! The JSON document model that request and response bodies pass through.
//!
//! A body is modeled as a tree of [`JsonValue`] nodes; the resource codecs
//! encode into and decode out of this tree.  In specifications a tree is
//! described by its [`JsonV`] view, in which strings are character sequences
//! and numbers are unbounded integers.

use vstd::prelude::*;

verus! {

/// A JSON number: a sign and a magnitude.  The magnitude covers the full
/// range of the identifiers the API uses.
#[derive(Debug, Clone, Copy, PartialEq, Eq)]
pub struct JsonNum {
    /// True for numbers written with a minus sign.
    pub neg: bool,
    /// The absolute value.
    pub mag: u64,
}

impl JsonNum {
    /// The mathematical value of this number.
    pub open spec fn int_value(self) -> int {
        if self.neg {
            -(self.mag as int)
        } else {
            self.mag as int
        }
    }

    /// Zero is never written with a minus sign.
    pub open spec fn wf(self) -> bool {
        self.neg ==> self.mag > 0
    }

    /// The number for a non-negative value.
    pub fn from_u64(v: u64) -> (r: JsonNum)
        ensures
            r.int_value() == v as int,
            r.wf(),
    {
        JsonNum { neg: false, mag: v }
    }

    /// The number for any signed value.
    pub fn from_i64(v: i64) -> (r: JsonNum)
        ensures
            r.int_value() == v as int,
            r.wf(),
    {
        if v < 0 {
            let mag: u64 = if v == i64::MIN {
                9223372036854775808u64
            } else {
                (-v) as u64
            };
            JsonNum { neg: true, mag }
        } else {
            JsonNum { neg: false, mag: v as u64 }
        }
    }
}

/// The specification view of a JSON tree.
pub enum JsonV {
    /// The literal `null`.
    Null,
    /// `true` or `false`.
    Bool(bool),
    /// A number, as its mathematical value.
    Num(int),
    /// A string, as its characters.
    Str(Seq<char>),
    /// An array of values, in order.
    Array(Seq<JsonV>),
    /// An object: its members in written order, each a key and a value.
    Object(Seq<(Seq<char>, JsonV)>),
}

/// A JSON tree.
#[derive(Debug, PartialEq, Eq)]
pub enum JsonValue {
    /// The literal `null`.
    Null,
    /// `true` or `false`.
    Bool(bool),
    /// A number.
    Num(JsonNum),
    /// A string.
    Str(String),
    /// An array of values, in order.
    Array(Vec<JsonValue>),
    /// An object: its members in written order, each a key and a value.
    Object(Vec<(String, JsonValue)>),
}

impl JsonValue {
    /// The view of this tree.
    pub open spec fn deep(self) -> JsonV
        decreases self,
    {
        match self {
            JsonValue::Null => JsonV::Null,
            JsonValue::Bool(b) => JsonV::Bool(b),
            JsonValue::Num(n) => JsonV::Num(n.int_value()),
            JsonValue::Str(s) => JsonV::Str(s@),
            JsonValue::Array(v) => JsonV::Array(deep_seq(v@)),
            JsonValue::Object(v) => JsonV::Object(fields_deep(v@)),
        }
    }

    /// Every number in the tree is in canonical form.
    pub open spec fn wf(self) -> bool
        decreases self,
    {
        match self {
            JsonValue::Num(n) => n.wf(),
            JsonValue::Array(v) => forall|i: int| 0 <= i < v@.len() ==> (#[trigger] v@[i]).wf(),
            JsonValue::Object(v) => forall|i: int|
                0 <= i < v@.len() ==> (#[trigger] v@[i]).1.wf(),
            _ => true,
        }
    }

    /// A number for a non-negative value.
    pub fn of_u64(v: u64) -> (r: JsonValue)
        ensures
            r.deep() == JsonV::Num(v as int),
            r.wf(),
    {
        JsonValue::Num(JsonNum::from_u64(v))
    }

    /// A number for any signed value.
    pub fn of_i64(v: i64) -> (r: JsonValue)
        ensures
            r.deep() == JsonV::Num(v as int),
            r.wf(),
    {
        JsonValue::Num(JsonNum::from_i64(v))
    }

    /// A string node holding a copy of `s`.
    pub fn of_str(s: &str) -> (r: JsonValue)
        ensures
            r.deep() == JsonV::Str(s@),
            r.wf(),
    {
        JsonValue::Str(s.to_owned())
    }

    /// A string node holding a copy of `s`.
    pub fn of_string(s: &String) -> (r: JsonValue)
        ensures
            r.deep() == JsonV::Str(s@),
            r.wf(),
    {
        JsonValue::Str(s.clone())
    }
}

/// The views of the elements of an array, in order.
pub open spec fn deep_seq(s: Seq<JsonValue>) -> Seq<JsonV>
    decreases s,
{
    if s.len() == 0 {
        Seq::empty()
    } else {
        seq![s[0].deep()] + deep_seq(s.drop_first())
    }
}

/// The view of an object member list, in order.
pub open spec fn fields_deep(fields: Seq<(String, JsonValue)>) -> Seq<(Seq<char>, JsonV)>
    decreases fields,
{
    if fields.len() == 0 {
        Seq::empty()
    } else {
        seq![(fields[0].0@, fields[0].1.deep())] + fields_deep(fields.drop_first())
    }
}

/// The element views, one by one.
pub proof fn lemma_deep_seq(s: Seq<JsonValue>)
    ensures
        deep_seq(s).len() == s.len(),
        forall|i: int| 0 <= i < s.len() ==> deep_seq(s)[i] == (#[trigger] s[i]).deep(),
    decreases s.len(),
{
    if s.len() > 0 {
        lemma_deep_seq(s.drop_first());
        assert forall|i: int| 0 <= i < s.len() implies deep_seq(s)[i] == (#[trigger] s[i]).deep() by {
            if i > 0 {
                assert(s.drop_first()[i - 1] == s[i]);
                assert(deep_seq(s)[i] == deep_seq(s.drop_first())[i - 1]);
            }
        }
    }
}

/// The member views, one by one.
pub proof fn lemma_fields_deep(fields: Seq<(String, JsonValue)>)
    ensures
        fields_deep(fields).len() == fields.len(),
        forall|i: int|
            0 <= i < fields.len() ==> fields_deep(fields)[i] == ((#[trigger] fields[i]).0@,
            fields[i].1.deep()),
    decreases fields.len(),
{
    if fields.len() > 0 {
        lemma_fields_deep(fields.drop_first());
        assert forall|i: int|
            0 <= i < fields.len() implies fields_deep(fields)[i] == ((#[trigger] fields[i]).0@,
        fields[i].1.deep()) by {
            if i > 0 {
                assert(fields.drop_first()[i - 1] == fields[i]);
                assert(fields_deep(fields)[i] == fields_deep(fields.drop_first())[i - 1]);
            }
        }
    }
}

/// Member views distribute over concatenation.
pub proof fn lemma_fields_deep_concat(a: Seq<(String, JsonValue)>, b: Seq<(String, JsonValue)>)
    ensures
        fields_deep(a + b) == fields_deep(a) + fields_deep(b),
{
    lemma_fields_deep(a);
    lemma_fields_deep(b);
    lemma_fields_deep(a + b);
    assert forall|i: int|
        0 <= i < a.len() + b.len() implies fields_deep(a + b)[i] == (fields_deep(a)
        + fields_deep(b))[i] by {
        if i < a.len() {
            assert((a + b)[i] == a[i]);
        } else {
            assert((a + b)[i] == b[i - a.len()]);
        }
    }
    assert(fields_deep(a + b) =~= fields_deep(a) + fields_deep(b));
}

/// The value under the first member of `fields` named `key`, if any; later
/// members of the same name are shadowed, and other members are ignored.
pub open spec fn obj_get_v(fields: Seq<(Seq<char>, JsonV)>, key: Seq<char>) -> Option<JsonV>
    decreases fields.len(),
{
    if fields.len() == 0 {
        None
    } else if fields[0].0 == key {
        Some(fields[0].1)
    } else {
        obj_get_v(fields.drop_first(), key)
    }
}

/// Looks a member up by name, first match wins.
pub fn obj_get<'a>(fields: &'a Vec<(String, JsonValue)>, key: &str) -> (r: Option<
    &'a JsonValue,
>)
    ensures
        match r {
            Some(v) => obj_get_v(fields_deep(fields@), key@) == Some(v.deep()),
            None => obj_get_v(fields_deep(fields@), key@) is None,
        },
{
    let key_string: String = key.to_owned();
    let ghost fv = fields_deep(fields@);
    proof {
        lemma_fields_deep(fields@);
        assert(fv.skip(0) =~= fv);
    }
    let mut i: usize = 0;
    while i < fields.len()
        invariant
            i <= fields@.len(),
            key_string@ == key@,
            fv == fields_deep(fields@),
            fv.len() == fields@.len(),
            forall|k: int|
                0 <= k < fields@.len() ==> fv[k] == ((#[trigger] fields@[k]).0@,
                fields@[k].1.deep()),
            obj_get_v(fv, key@) == obj_get_v(fv.skip(i as int), key@),
        decreases fields@.len() - i,
    {
        proof {
            assert(fv.skip(i as int).len() == fv.len() - i);
            assert(fv.skip(i as int)[0] == fv[i as int]);
            assert(fv.skip(i as int).drop_first() =~= fv.skip(i as int + 1));
        }
        if fields[i].0 == key_string {
            return Some(&fields[i].1);
        }
        i = i + 1;
    }
    proof {
        assert(fv.skip(i as int).len() == 0);
    }
    None
}

/// Appends a member to an object under construction.
pub fn push_field(fields: &mut Vec<(String, JsonValue)>, key: &str, value: JsonValue)
    ensures
        fields_deep(final(fields)@) =~= fields_deep(old(fields)@).push(
            (key@, value.deep()),
        ),
        final(fields)@.len() == old(fields)@.len() + 1,
        final(fields)@[final(fields)@.len() - 1].1 == value,
        forall|i: int|
            0 <= i < old(fields)@.len() ==> final(fields)@[i] == old(fields)@[i],
{
    let key_string: String = key.to_owned();
    let ghost pushed = (key_string, value);
    fields.push((key_string, value));
    proof {
        lemma_fields_deep(old(fields)@);
        lemma_fields_deep(fields@);
        assert(fields@ == old(fields)@.push(pushed));
        assert forall|i: int|
            0 <= i < fields@.len() implies #[trigger] fields_deep(fields@)[i] == fields_deep(
            old(fields)@,
        ).push((key@, value.deep()))[i] by {
            if i < old(fields)@.len() {
                assert(fields@[i] == old(fields)@[i]);
            } else {
                assert(fields@[i] == pushed);
            }
        }
        assert(fields_deep(fields@) =~= fields_deep(old(fields)@).push((key@, value.deep())));
    }
}

} // verus!
