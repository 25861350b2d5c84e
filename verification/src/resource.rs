//! The resource and collection envelopes that every API object arrives in.
//!
//! A singular resource is `{id, object, url, data_updated_at, data}`; a
//! collection is `{object, url, data_updated_at, pages, total_count, data}`
//! with the data an array of singular resources.  Payload types implement
//! [`JsonPayload`], and the envelope codecs are generic over it.

use vstd::prelude::*;

use crate::codec::{
    DecodeError, v_str, v_u64, v_u32, v_opt_str, v_opt_time, get_u64, get_u32, get_string,
    get_opt_string, get_opt_time, opt_str_json,
};
use crate::json::{JsonValue, JsonV, obj_get, obj_get_v, push_field, fields_deep};
use crate::timestamp::Timestamp;

verus! {

/// Possible resource types
#[derive(Debug, Clone, Copy, PartialEq, Eq, Structural)]
pub enum ResourceType {
    /// An `assignment`
    Assignment,
    /// A `collection`
    Collection,
    /// A `level_progression`
    LevelProgression,
    /// A `reset`
    Reset,
    /// A `review_statistic`
    ReviewStatistic,
    /// A `study_material`
    StudyMaterial,
    /// A radical.
    Radical,
    /// A kanji.
    Kanji,
    /// A word with kanji in it.
    Vocabulary,
    /// A word with only kana.
    KanaVocabulary,
    /// A Summary `report`
    Report,
    /// A `user`
    User,
    /// A `voice_actor`
    VoiceActor,
}

/// The tag under which a resource type appears on the wire.
pub open spec fn resource_type_name(t: ResourceType) -> Seq<char> {
    match t {
        ResourceType::Assignment => "assignment"@,
        ResourceType::Collection => "collection"@,
        ResourceType::LevelProgression => "level_progression"@,
        ResourceType::Reset => "reset"@,
        ResourceType::ReviewStatistic => "review_statistic"@,
        ResourceType::StudyMaterial => "study_material"@,
        ResourceType::Radical => "radical"@,
        ResourceType::Kanji => "kanji"@,
        ResourceType::Vocabulary => "vocabulary"@,
        ResourceType::KanaVocabulary => "kana_vocabulary"@,
        ResourceType::Report => "report"@,
        ResourceType::User => "user"@,
        ResourceType::VoiceActor => "voice_actor"@,
    }
}

/// The resource type a wire tag names, if any.
pub open spec fn resource_type_of_name(s: Seq<char>) -> Option<ResourceType> {
    if s == "assignment"@ {
        Some(ResourceType::Assignment)
    } else if s == "collection"@ {
        Some(ResourceType::Collection)
    } else if s == "level_progression"@ {
        Some(ResourceType::LevelProgression)
    } else if s == "reset"@ {
        Some(ResourceType::Reset)
    } else if s == "review_statistic"@ {
        Some(ResourceType::ReviewStatistic)
    } else if s == "study_material"@ {
        Some(ResourceType::StudyMaterial)
    } else if s == "radical"@ {
        Some(ResourceType::Radical)
    } else if s == "kanji"@ {
        Some(ResourceType::Kanji)
    } else if s == "vocabulary"@ {
        Some(ResourceType::Vocabulary)
    } else if s == "kana_vocabulary"@ {
        Some(ResourceType::KanaVocabulary)
    } else if s == "report"@ {
        Some(ResourceType::Report)
    } else if s == "user"@ {
        Some(ResourceType::User)
    } else if s == "voice_actor"@ {
        Some(ResourceType::VoiceActor)
    } else {
        None
    }
}

/// Every wire tag names back the resource type it was written for.
pub proof fn lemma_resource_type_name_round_trip(t: ResourceType)
    ensures
        resource_type_of_name(resource_type_name(t)) == Some(t),
{
    reveal_strlit("assignment");
    reveal_strlit("collection");
    reveal_strlit("level_progression");
    reveal_strlit("reset");
    reveal_strlit("review_statistic");
    reveal_strlit("study_material");
    reveal_strlit("radical");
    reveal_strlit("kanji");
    reveal_strlit("vocabulary");
    reveal_strlit("kana_vocabulary");
    reveal_strlit("report");
    reveal_strlit("user");
    reveal_strlit("voice_actor");
    assert("assignment"@.len() == 10);
    assert("collection"@.len() == 10);
    assert("level_progression"@.len() == 17);
    assert("reset"@.len() == 5);
    assert("review_statistic"@.len() == 16);
    assert("study_material"@.len() == 14);
    assert("radical"@.len() == 7);
    assert("kanji"@.len() == 5);
    assert("vocabulary"@.len() == 10);
    assert("kana_vocabulary"@.len() == 15);
    assert("report"@.len() == 6);
    assert("user"@.len() == 4);
    assert("voice_actor"@.len() == 11);
    assert("kanji"@[0] != "reset"@[0]);
    assert("vocabulary"@[0] != "collection"@[0]);
    assert("assignment"@[0] != "collection"@[0]);
    assert("assignment"@[0] != "vocabulary"@[0]);
}

impl ResourceType {
    /// Writes the wire tag for this resource type.
    pub fn to_string(&self) -> (r: String)
        ensures
            r@ == resource_type_name(*self),
    {
        let name: &str = match self {
            ResourceType::Assignment => "assignment",
            ResourceType::Collection => "collection",
            ResourceType::LevelProgression => "level_progression",
            ResourceType::Reset => "reset",
            ResourceType::ReviewStatistic => "review_statistic",
            ResourceType::StudyMaterial => "study_material",
            ResourceType::Radical => "radical",
            ResourceType::Kanji => "kanji",
            ResourceType::Vocabulary => "vocabulary",
            ResourceType::KanaVocabulary => "kana_vocabulary",
            ResourceType::Report => "report",
            ResourceType::User => "user",
            ResourceType::VoiceActor => "voice_actor",
        };
        name.to_owned()
    }

    /// Reads a wire tag.
    pub fn from_name(s: &str) -> (r: Option<ResourceType>)
        ensures
            r == resource_type_of_name(s@),
    {
        if crate::codec::str_eq(s, "assignment") {
            Some(ResourceType::Assignment)
        } else if crate::codec::str_eq(s, "collection") {
            Some(ResourceType::Collection)
        } else if crate::codec::str_eq(s, "level_progression") {
            Some(ResourceType::LevelProgression)
        } else if crate::codec::str_eq(s, "reset") {
            Some(ResourceType::Reset)
        } else if crate::codec::str_eq(s, "review_statistic") {
            Some(ResourceType::ReviewStatistic)
        } else if crate::codec::str_eq(s, "study_material") {
            Some(ResourceType::StudyMaterial)
        } else if crate::codec::str_eq(s, "radical") {
            Some(ResourceType::Radical)
        } else if crate::codec::str_eq(s, "kanji") {
            Some(ResourceType::Kanji)
        } else if crate::codec::str_eq(s, "vocabulary") {
            Some(ResourceType::Vocabulary)
        } else if crate::codec::str_eq(s, "kana_vocabulary") {
            Some(ResourceType::KanaVocabulary)
        } else if crate::codec::str_eq(s, "report") {
            Some(ResourceType::Report)
        } else if crate::codec::str_eq(s, "user") {
            Some(ResourceType::User)
        } else if crate::codec::str_eq(s, "voice_actor") {
            Some(ResourceType::VoiceActor)
        } else {
            None
        }
    }
}

/// Struct that contains fields common to all resources
#[derive(Debug, Clone, PartialEq, Eq)]
pub struct ResourceCommon {
    /// An object's type
    pub object: ResourceType,
    /// The URL of the request. For collections, that will contain all the
    /// filters and options you've passed to the API. Resources have a single
    /// URL and don't need to be filtered, so the URL will be the same in
    /// both resource and collection responses.
    pub url: String,
    /// For collections, this is the timestamp of the most recently updated
    /// resource in the specified scope and is not limited by pagination. If
    /// no resources were returned for the specified scope, then this will be
    /// `null`. For a resource, then this is the last time that particular
    /// resource was updated.
    pub data_updated_at: Option<Timestamp>,
}

/// The view of a [`ResourceCommon`].
pub struct ResourceCommonV {
    /// An object's type.
    pub object: ResourceType,
    /// The URL of the request.
    pub url: Seq<char>,
    /// When the data was last updated.
    pub data_updated_at: Option<Timestamp>,
}

impl ResourceCommon {
    /// The view of this value.
    pub open spec fn deep(self) -> ResourceCommonV {
        ResourceCommonV {
            object: self.object,
            url: self.url@,
            data_updated_at: self.data_updated_at,
        }
    }

    /// Valid timestamps throughout.
    pub open spec fn wf(self) -> bool {
        common_wf(self.deep())
    }
}

/// Valid timestamps throughout a common part.
pub open spec fn common_wf(c: ResourceCommonV) -> bool {
    c.data_updated_at matches Some(t) ==> t.wf()
}

/// Pagination information for collections
#[derive(Debug, Clone, PartialEq, Eq)]
pub struct Pages {
    /// The URL for the next page of resources, if one exists.
    pub next_url: Option<String>,
    /// The URL for the previous page of resources, if one exists.
    pub previous_url: Option<String>,
    /// The number of resources per page.
    pub per_page: u32,
}

/// The view of a [`Pages`].
pub struct PagesV {
    /// The URL for the next page, if one exists.
    pub next_url: Option<Seq<char>>,
    /// The URL for the previous page, if one exists.
    pub previous_url: Option<Seq<char>>,
    /// The number of resources per page.
    pub per_page: u32,
}

impl Pages {
    /// The view of this value.
    pub open spec fn deep(self) -> PagesV {
        PagesV {
            next_url: match self.next_url {
                Some(s) => Some(s@),
                None => None,
            },
            previous_url: match self.previous_url {
                Some(s) => Some(s@),
                None => None,
            },
            per_page: self.per_page,
        }
    }
}

/// A generic resource type.
///
/// Most resources returned by the WaniKani API take this shape.
#[derive(Debug, Clone, PartialEq, Eq)]
pub struct Resource<T> {
    /// The resource's unique ID.
    pub id: crate::Id,
    /// Common resource data.
    pub common: ResourceCommon,
    /// A resource's data
    pub data: T,
}

/// The view of a [`Resource`].
pub struct ResourceV<TV> {
    /// The resource's unique ID.
    pub id: u64,
    /// Common resource data.
    pub common: ResourceCommonV,
    /// The payload view.
    pub data: TV,
}

/// A collection of resources
#[derive(Debug, Clone, PartialEq, Eq)]
pub struct Collection<T> {
    /// Common resource data
    pub common: ResourceCommon,
    /// Pagination data for the collection
    pub pages: Pages,
    /// The total count of resources in the collection
    pub total_count: crate::Id,
    /// The collection's data
    pub data: Vec<Resource<T>>,
}

/// The view of a [`Collection`].
pub struct CollectionV<TV> {
    /// Common resource data.
    pub common: ResourceCommonV,
    /// Pagination data.
    pub pages: PagesV,
    /// The total count of resources in the collection's scope.
    pub total_count: u64,
    /// The page's resources.
    pub data: Seq<ResourceV<TV>>,
}

/// A resource payload: a type that knows its JSON shape exactly, both ways.
pub trait JsonPayload: Sized {
    /// The specification view of the payload.
    type V;

    /// The view of this value.
    spec fn deep(self) -> Self::V;

    /// A valid instance: every timestamp in it is a valid calendar moment.
    spec fn v_wf(v: Self::V) -> bool;

    /// The JSON tree a payload is written as.
    spec fn to_json_v(v: Self::V) -> JsonV;

    /// The payload a JSON tree reads back as, if it has the right shape.
    spec fn of_json_v(j: JsonV) -> Option<Self::V>;

    /// Writes the payload.
    fn encode(&self) -> (r: JsonValue)
        requires
            Self::v_wf(self.deep()),
        ensures
            r.deep() == Self::to_json_v(self.deep()),
            r.wf(),
    ;

    /// Reads a payload back, exactly when the tree has the right shape.
    fn decode(j: &JsonValue) -> (r: Result<Self, DecodeError>)
        ensures
            match r {
                Ok(x) => Self::of_json_v(j.deep()) == Some(x.deep()),
                Err(_) => Self::of_json_v(j.deep()) is None,
            },
    ;

    /// Writing a valid payload and reading it back yields the same value.
    proof fn round_trip(v: Self::V)
        requires
            Self::v_wf(v),
        ensures
            Self::of_json_v(Self::to_json_v(v)) == Some(v),
    ;
}

/// The members every envelope shares: the type tag, the canonical URL and
/// the update timestamp.
pub open spec fn common_to_fields(c: ResourceCommonV) -> Seq<(Seq<char>, JsonV)> {
    seq![
        ("object"@, JsonV::Str(resource_type_name(c.object))),
        ("url"@, JsonV::Str(c.url)),
        (
            "data_updated_at"@,
            match c.data_updated_at {
                Some(t) => JsonV::Str(crate::timestamp::rfc3339(t)),
                None => JsonV::Null,
            },
        ),
    ]
}

/// Reads the shared members back.
pub open spec fn common_of_fields(f: Seq<(Seq<char>, JsonV)>) -> Option<ResourceCommonV> {
    match (v_str(f, "object"@), v_str(f, "url"@), v_opt_time(f, "data_updated_at"@)) {
        (Some(tag), Some(url), Some(dua)) => match resource_type_of_name(tag) {
            Some(object) => Some(ResourceCommonV { object, url, data_updated_at: dua }),
            None => None,
        },
        _ => None,
    }
}

/// The singular-resource envelope around a payload tree.
pub open spec fn resource_envelope(id: u64, c: ResourceCommonV, data: JsonV) -> JsonV {
    JsonV::Object(
        seq![("id"@, JsonV::Num(id as int))] + common_to_fields(c) + seq![("data"@, data)],
    )
}

impl<T: JsonPayload> Resource<T> {
    /// The view of this value.
    pub open spec fn deep(self) -> ResourceV<T::V> {
        ResourceV { id: self.id, common: self.common.deep(), data: self.data.deep() }
    }
}

impl<T: JsonPayload> Collection<T> {
    /// The view of this value.
    pub open spec fn deep(self) -> CollectionV<T::V> {
        CollectionV {
            common: self.common.deep(),
            pages: self.pages.deep(),
            total_count: self.total_count,
            data: Seq::new(self.data@.len(), |i: int| self.data@[i].deep()),
        }
    }
}

/// The JSON tree a singular resource is written as.
pub open spec fn resource_to_json_v<T: JsonPayload>(v: ResourceV<T::V>) -> JsonV {
    resource_envelope(v.id, v.common, T::to_json_v(v.data))
}

/// The singular resource a JSON tree reads back as, if it has the right
/// shape.
pub open spec fn resource_of_json_v<T: JsonPayload>(j: JsonV) -> Option<ResourceV<T::V>> {
    match j {
        JsonV::Object(f) => match (v_u64(f, "id"@), common_of_fields(f)) {
            (Some(id), Some(common)) => match obj_get_v(f, "data"@) {
                Some(dj) => match T::of_json_v(dj) {
                    Some(data) => Some(ResourceV { id, common, data }),
                    None => None,
                },
                None => None,
            },
            _ => None,
        },
        _ => None,
    }
}

/// A valid resource instance: valid timestamps in the common part and a
/// valid payload.
pub open spec fn resource_v_wf<T: JsonPayload>(v: ResourceV<T::V>) -> bool {
    common_wf(v.common) && T::v_wf(v.data)
}

/// Appends the shared members to an envelope under construction.
pub fn push_common_fields(fields: &mut Vec<(String, JsonValue)>, c: &ResourceCommon)
    requires
        c.wf(),
    ensures
        fields_deep(final(fields)@) == fields_deep(old(fields)@) + common_to_fields(c.deep()),
        final(fields)@.len() == old(fields)@.len() + 3,
        forall|i: int| 0 <= i < old(fields)@.len() ==> final(fields)@[i] == old(fields)@[i],
        forall|i: int|
            old(fields)@.len() <= i < final(fields)@.len() ==> (#[trigger] final(fields)@[i]).1.wf(),
{
    let tag: String = c.object.to_string();
    push_field(fields, "object", JsonValue::Str(tag));
    push_field(fields, "url", JsonValue::of_string(&c.url));
    push_field(fields, "data_updated_at", crate::codec::opt_time_json(&c.data_updated_at));
    proof {
        assert(fields_deep(fields@) =~= fields_deep(old(fields)@) + common_to_fields(
            c.deep(),
        ));
    }
}

/// Reads the shared members out of an envelope.
pub fn decode_common(f: &Vec<(String, JsonValue)>) -> (r: Result<ResourceCommon, DecodeError>)
    ensures
        match r {
            Ok(c) => common_of_fields(fields_deep(f@)) == Some(c.deep()),
            Err(_) => common_of_fields(fields_deep(f@)) is None,
        },
{
    let tag: String = match get_string(f, "object") {
        Ok(x) => x,
        Err(e) => {
            return Err(e);
        },
    };
    let url: String = match get_string(f, "url") {
        Ok(x) => x,
        Err(e) => {
            return Err(e);
        },
    };
    let data_updated_at: Option<Timestamp> = match get_opt_time(f, "data_updated_at") {
        Ok(x) => x,
        Err(e) => {
            return Err(e);
        },
    };
    match ResourceType::from_name(tag.as_str()) {
        Some(object) => Ok(ResourceCommon { object, url, data_updated_at }),
        None => Err(DecodeError),
    }
}

/// Writes a singular resource.
pub fn encode_resource<T: JsonPayload>(r: &Resource<T>) -> (j: JsonValue)
    requires
        r.common.wf(),
        T::v_wf(r.data.deep()),
    ensures
        j.deep() == resource_to_json_v::<T>(r.deep()),
        j.wf(),
{
    let mut fields: Vec<(String, JsonValue)> = Vec::new();
    push_field(&mut fields, "id", JsonValue::of_u64(r.id));
    push_common_fields(&mut fields, &r.common);
    push_field(&mut fields, "data", r.data.encode());
    proof {
        assert(fields_deep(fields@) =~= seq![("id"@, JsonV::Num(r.id as int))]
            + common_to_fields(r.common.deep()) + seq![("data"@, T::to_json_v(r.data.deep()))]);
        assert(forall|i: int| 0 <= i < fields@.len() ==> (#[trigger] fields@[i]).1.wf());
    }
    JsonValue::Object(fields)
}

/// Reads a singular resource, exactly when the tree has the right shape.
pub fn decode_resource<T: JsonPayload>(j: &JsonValue) -> (r: Result<Resource<T>, DecodeError>)
    ensures
        match r {
            Ok(x) => resource_of_json_v::<T>(j.deep()) == Some(x.deep()),
            Err(_) => resource_of_json_v::<T>(j.deep()) is None,
        },
{
    match j {
        JsonValue::Object(f) => {
            let id: u64 = match get_u64(f, "id") {
                Ok(x) => x,
                Err(e) => {
                    return Err(e);
                },
            };
            let common: ResourceCommon = match decode_common(f) {
                Ok(x) => x,
                Err(e) => {
                    return Err(e);
                },
            };
            match obj_get(f, "data") {
                Some(dj) => match T::decode(dj) {
                    Ok(data) => Ok(Resource { id, common, data }),
                    Err(e) => Err(e),
                },
                None => Err(DecodeError),
            }
        },
        _ => Err(DecodeError),
    }
}

/// Writing a valid singular resource and reading it back yields the same
/// value.
pub proof fn lemma_resource_round_trip<T: JsonPayload>(v: ResourceV<T::V>)
    requires
        resource_v_wf::<T>(v),
    ensures
        resource_of_json_v::<T>(resource_to_json_v::<T>(v)) == Some(v),
{
    let f = seq![("id"@, JsonV::Num(v.id as int))] + common_to_fields(v.common) + seq![
        ("data"@, T::to_json_v(v.data)),
    ];
    reveal_with_fuel(obj_get_v, 8);
    reveal_strlit("id");
    reveal_strlit("object");
    reveal_strlit("url");
    reveal_strlit("data_updated_at");
    reveal_strlit("data");
    assert("id"@.len() == 2);
    assert("object"@.len() == 6);
    assert("url"@.len() == 3);
    assert("data_updated_at"@.len() == 15);
    assert("data"@.len() == 4);
    assert(f.len() == 5);
    assert(f[0] == ("id"@, JsonV::Num(v.id as int)));
    assert(f[1] == ("object"@, JsonV::Str(resource_type_name(v.common.object))));
    assert(f[2] == ("url"@, JsonV::Str(v.common.url)));
    assert(f[4] == ("data"@, T::to_json_v(v.data)));
    lemma_obj_get_skips(f);
    assert(obj_get_v(f, "id"@) == Some(f[0].1));
    assert(obj_get_v(f, "object"@) == Some(f[1].1));
    assert(obj_get_v(f, "url"@) == Some(f[2].1));
    assert(obj_get_v(f, "data_updated_at"@) == Some(f[3].1));
    assert(obj_get_v(f, "data"@) == Some(f[4].1));
    lemma_resource_type_name_round_trip(v.common.object);
    match v.common.data_updated_at {
        Some(t) => {
            crate::timestamp::lemma_rfc3339_round_trip(t);
        },
        None => {},
    }
    T::round_trip(v.data);
    assert(common_of_fields(f) == Some(v.common));
    assert(resource_of_json_v::<T>(resource_to_json_v::<T>(v)) == Some(v));
}

/// Five members, looked up one after the other.
pub proof fn lemma_obj_get_skips(f: Seq<(Seq<char>, JsonV)>)
    requires
        f.len() <= 20,
    ensures
        forall|key: Seq<char>| #[trigger] obj_get_v(f, key) == obj_get_v_unrolled(f, key),
{
    reveal_with_fuel(obj_get_v, 21);
    assert forall|key: Seq<char>| #[trigger] obj_get_v(f, key) == obj_get_v_unrolled(f, key)
        by {
        if f.len() > 0 {
            lemma_obj_get_skips_step(f, key);
        } else {
            lemma_obj_get_skips_step(f, key);
        }
    }
}

/// Member lookup written out without recursion, for lists of up to twenty
/// members.
pub open spec fn obj_get_v_unrolled(f: Seq<(Seq<char>, JsonV)>, key: Seq<char>) -> Option<
    JsonV,
> {
    if f.len() > 0 && f[0].0 == key {
        Some(f[0].1)
    } else if f.len() > 1 && f[1].0 == key {
        Some(f[1].1)
    } else if f.len() > 2 && f[2].0 == key {
        Some(f[2].1)
    } else if f.len() > 3 && f[3].0 == key {
        Some(f[3].1)
    } else if f.len() > 4 && f[4].0 == key {
        Some(f[4].1)
    } else if f.len() > 5 && f[5].0 == key {
        Some(f[5].1)
    } else if f.len() > 6 && f[6].0 == key {
        Some(f[6].1)
    } else if f.len() > 7 && f[7].0 == key {
        Some(f[7].1)
    } else if f.len() > 8 && f[8].0 == key {
        Some(f[8].1)
    } else if f.len() > 9 && f[9].0 == key {
        Some(f[9].1)
    } else if f.len() > 10 && f[10].0 == key {
        Some(f[10].1)
    } else if f.len() > 11 && f[11].0 == key {
        Some(f[11].1)
    } else if f.len() > 12 && f[12].0 == key {
        Some(f[12].1)
    } else if f.len() > 13 && f[13].0 == key {
        Some(f[13].1)
    } else if f.len() > 14 && f[14].0 == key {
        Some(f[14].1)
    } else if f.len() > 15 && f[15].0 == key {
        Some(f[15].1)
    } else if f.len() > 16 && f[16].0 == key {
        Some(f[16].1)
    } else if f.len() > 17 && f[17].0 == key {
        Some(f[17].1)
    } else if f.len() > 18 && f[18].0 == key {
        Some(f[18].1)
    } else if f.len() > 19 && f[19].0 == key {
        Some(f[19].1)
    } else {
        None
    }
}

proof fn lemma_obj_get_skips_step(f: Seq<(Seq<char>, JsonV)>, key: Seq<char>)
    requires
        f.len() <= 20,
    ensures
        obj_get_v(f, key) == obj_get_v_unrolled(f, key),
    decreases f.len(),
{
    if f.len() > 0 {
        assert(f.drop_first().len() == f.len() - 1);
        lemma_obj_get_skips_step(f.drop_first(), key);
        assert(forall|k: int| 0 <= k < f.len() - 1 ==> #[trigger] f.drop_first()[k] == f[k
            + 1]);
    }
}

/// The JSON tree a pages object is written as.
pub open spec fn pages_to_json(p: PagesV) -> JsonV {
    JsonV::Object(
        seq![
            (
                "next_url"@,
                match p.next_url {
                    Some(s) => JsonV::Str(s),
                    None => JsonV::Null,
                },
            ),
            (
                "previous_url"@,
                match p.previous_url {
                    Some(s) => JsonV::Str(s),
                    None => JsonV::Null,
                },
            ),
            ("per_page"@, JsonV::Num(p.per_page as int)),
        ],
    )
}

/// The pages object a JSON tree reads back as.
pub open spec fn pages_of_json(j: JsonV) -> Option<PagesV> {
    match j {
        JsonV::Object(f) => match (
            v_opt_str(f, "next_url"@),
            v_opt_str(f, "previous_url"@),
            v_u32(f, "per_page"@),
        ) {
            (Some(next_url), Some(previous_url), Some(per_page)) => Some(
                PagesV { next_url, previous_url, per_page },
            ),
            _ => None,
        },
        _ => None,
    }
}

/// Writes a pages object.
pub fn encode_pages(p: &Pages) -> (j: JsonValue)
    ensures
        j.deep() == pages_to_json(p.deep()),
        j.wf(),
{
    let mut fields: Vec<(String, JsonValue)> = Vec::new();
    push_field(&mut fields, "next_url", opt_str_json(&p.next_url));
    push_field(&mut fields, "previous_url", opt_str_json(&p.previous_url));
    push_field(&mut fields, "per_page", JsonValue::of_u64(p.per_page as u64));
    proof {
        assert(fields_deep(fields@) =~= pages_to_json(p.deep())->Object_0);
        assert(forall|i: int| 0 <= i < fields@.len() ==> (#[trigger] fields@[i]).1.wf());
    }
    JsonValue::Object(fields)
}

/// Reads a pages object.
pub fn decode_pages(j: &JsonValue) -> (r: Result<Pages, DecodeError>)
    ensures
        match r {
            Ok(p) => pages_of_json(j.deep()) == Some(p.deep()),
            Err(_) => pages_of_json(j.deep()) is None,
        },
{
    match j {
        JsonValue::Object(f) => {
            let next_url = match get_opt_string(f, "next_url") {
                Ok(x) => x,
                Err(e) => {
                    return Err(e);
                },
            };
            let previous_url = match get_opt_string(f, "previous_url") {
                Ok(x) => x,
                Err(e) => {
                    return Err(e);
                },
            };
            let per_page = match get_u32(f, "per_page") {
                Ok(x) => x,
                Err(e) => {
                    return Err(e);
                },
            };
            Ok(Pages { next_url, previous_url, per_page })
        },
        _ => Err(DecodeError),
    }
}

/// Reading back a written pages object yields the same value.
pub proof fn lemma_pages_round_trip(p: PagesV)
    ensures
        pages_of_json(pages_to_json(p)) == Some(p),
{
    let f = pages_to_json(p)->Object_0;
    reveal_with_fuel(obj_get_v, 5);
    reveal_strlit("next_url");
    reveal_strlit("previous_url");
    reveal_strlit("per_page");
    assert("next_url"@.len() == 8);
    assert("previous_url"@.len() == 12);
    assert("per_page"@.len() == 8);
    assert("next_url"@[0] != "per_page"@[0]);
    lemma_obj_get_skips(f);
    assert(obj_get_v(f, "next_url"@) == Some(f[0].1));
    assert(obj_get_v(f, "previous_url"@) == Some(f[1].1));
    assert(obj_get_v(f, "per_page"@) == Some(f[2].1));
}

/// The JSON trees of a page of resources, in order.
pub open spec fn resources_to_json_v<T: JsonPayload>(rs: Seq<ResourceV<T::V>>) -> Seq<JsonV> {
    rs.map_values(|r: ResourceV<T::V>| resource_to_json_v::<T>(r))
}

/// The resources an array of JSON trees reads back as, if every element has
/// the right shape.
pub open spec fn resources_of_json_v<T: JsonPayload>(elems: Seq<JsonV>) -> Option<
    Seq<ResourceV<T::V>>,
>
    decreases elems.len(),
{
    if elems.len() == 0 {
        Some(Seq::empty())
    } else {
        match resource_of_json_v::<T>(elems[0]) {
            Some(r) => match resources_of_json_v::<T>(elems.drop_first()) {
                Some(rest) => Some(seq![r] + rest),
                None => None,
            },
            None => None,
        }
    }
}

/// The JSON tree a collection is written as.
pub open spec fn collection_to_json_v<T: JsonPayload>(v: CollectionV<T::V>) -> JsonV {
    JsonV::Object(
        common_to_fields(v.common) + seq![
            ("pages"@, pages_to_json(v.pages)),
            ("total_count"@, JsonV::Num(v.total_count as int)),
            ("data"@, JsonV::Array(resources_to_json_v::<T>(v.data))),
        ],
    )
}

/// The collection a JSON tree reads back as, if it has the right shape.
pub open spec fn collection_of_json_v<T: JsonPayload>(j: JsonV) -> Option<CollectionV<T::V>> {
    match j {
        JsonV::Object(f) => match (common_of_fields(f), v_u64(f, "total_count"@)) {
            (Some(common), Some(total_count)) => match obj_get_v(f, "pages"@) {
                Some(pj) => match pages_of_json(pj) {
                    Some(pages) => match obj_get_v(f, "data"@) {
                        Some(JsonV::Array(elems)) => match resources_of_json_v::<T>(elems) {
                            Some(data) => Some(
                                CollectionV { common, pages, total_count, data },
                            ),
                            None => None,
                        },
                        _ => None,
                    },
                    None => None,
                },
                None => None,
            },
            _ => None,
        },
        _ => None,
    }
}

/// A valid collection instance.
pub open spec fn collection_v_wf<T: JsonPayload>(v: CollectionV<T::V>) -> bool {
    common_wf(v.common) && forall|i: int|
        0 <= i < v.data.len() ==> resource_v_wf::<T>(#[trigger] v.data[i])
}

/// Writes a collection.
pub fn encode_collection<T: JsonPayload>(c: &Collection<T>) -> (j: JsonValue)
    requires
        c.common.wf(),
        forall|i: int| 0 <= i < c.data@.len() ==> resource_v_wf::<T>((#[trigger] c.data@[i]).deep()),
    ensures
        j.deep() == collection_to_json_v::<T>(c.deep()),
        j.wf(),
{
    let mut fields: Vec<(String, JsonValue)> = Vec::new();
    push_common_fields(&mut fields, &c.common);
    push_field(&mut fields, "pages", encode_pages(&c.pages));
    push_field(&mut fields, "total_count", JsonValue::of_u64(c.total_count));
    let mut elems: Vec<JsonValue> = Vec::new();
    let mut i: usize = 0;
    while i < c.data.len()
        invariant
            i <= c.data@.len(),
            elems@.len() == i,
            forall|i0: int|
                0 <= i0 < c.data@.len() ==> resource_v_wf::<T>(
                    (#[trigger] c.data@[i0]).deep(),
                ),
            forall|k: int|
                0 <= k < i ==> (#[trigger] elems@[k]).deep() == resource_to_json_v::<T>(
                    c.data@[k].deep(),
                ) && elems@[k].wf(),
        decreases c.data@.len() - i,
    {
        let e = encode_resource(&c.data[i]);
        elems.push(e);
        i = i + 1;
    }
    proof {
        crate::json::lemma_deep_seq(elems@);
        let target = c.deep().data.map_values(
            |r: ResourceV<T::V>| resource_to_json_v::<T>(r),
        );
        assert forall|k: int| 0 <= k < c.data@.len() implies crate::json::deep_seq(elems@)[k]
            == target[k] by {
            assert(crate::json::deep_seq(elems@)[k] == elems@[k].deep());
            assert(c.deep().data[k] == c.data@[k].deep());
        }
        assert(crate::json::deep_seq(elems@) =~= target);
    }
    push_field(&mut fields, "data", JsonValue::Array(elems));
    proof {
        assert(fields_deep(fields@) =~= common_to_fields(c.common.deep()) + seq![
            ("pages"@, pages_to_json(c.pages.deep())),
            ("total_count"@, JsonV::Num(c.total_count as int)),
            ("data"@, JsonV::Array(resources_to_json_v::<T>(c.deep().data))),
        ]);
        assert(forall|i0: int| 0 <= i0 < fields@.len() ==> (#[trigger] fields@[i0]).1.wf());
    }
    JsonValue::Object(fields)
}

proof fn lemma_resources_of_head_bad<T: JsonPayload>(elems: Seq<JsonV>)
    requires
        elems.len() > 0,
        resource_of_json_v::<T>(elems[0]) is None,
    ensures
        resources_of_json_v::<T>(elems) is None,
{
}

/// Reads a page of resources out of an array.
fn decode_resources<T: JsonPayload>(elems: &Vec<JsonValue>) -> (r: Result<
    Vec<Resource<T>>,
    DecodeError,
>)
    ensures
        match r {
            Ok(x) => resources_of_json_v::<T>(crate::json::deep_seq(elems@)) == Some(
                x@.map_values(|y: Resource<T>| y.deep()),
            ),
            Err(_) => resources_of_json_v::<T>(crate::json::deep_seq(elems@)) is None,
        },
{
    let ghost ev = crate::json::deep_seq(elems@);
    let mut data: Vec<Resource<T>> = Vec::new();
    let mut i: usize = 0;
    proof {
        crate::json::lemma_deep_seq(elems@);
        assert(ev.skip(0) =~= ev);
        assert(resources_of_json_v::<T>(ev) is Some ==> Seq::<ResourceV<T::V>>::empty()
            + resources_of_json_v::<T>(ev).unwrap() =~= resources_of_json_v::<T>(
            ev,
        ).unwrap());
    }
    while i < elems.len()
        invariant
            i <= elems@.len(),
            ev == crate::json::deep_seq(elems@),
            ev.len() == elems@.len(),
            forall|k: int| 0 <= k < elems@.len() ==> ev[k] == (#[trigger] elems@[k]).deep(),
            data@.len() == i,
            resources_of_json_v::<T>(ev) is Some <==> resources_of_json_v::<T>(
                ev.skip(i as int),
            ) is Some,
            resources_of_json_v::<T>(ev) is Some ==> resources_of_json_v::<T>(ev).unwrap()
                == data@.map_values(|x: Resource<T>| x.deep()) + resources_of_json_v::<T>(
                ev.skip(i as int),
            ).unwrap(),
        decreases elems@.len() - i,
    {
        proof {
            assert(ev.skip(i as int).len() == ev.len() - i);
            assert(ev.skip(i as int)[0] == ev[i as int]);
            assert(ev.skip(i as int).drop_first() =~= ev.skip(i as int + 1));
            assert(ev[i as int] == elems@[i as int].deep());
        }
        let x: Resource<T> = match decode_resource::<T>(&elems[i]) {
            Ok(x) => x,
            Err(e) => {
                proof {
                    lemma_resources_of_head_bad::<T>(ev.skip(i as int));
                }
                return Err(e);
            },
        };
        proof {
            let tail = resources_of_json_v::<T>(ev.skip(i as int + 1));
            if tail is Some {
                assert(resources_of_json_v::<T>(ev.skip(i as int)) == Some(
                    seq![x.deep()] + tail.unwrap(),
                ));
                assert(data@.push(x).map_values(|y: Resource<T>| y.deep())
                    =~= data@.map_values(|y: Resource<T>| y.deep()).push(x.deep()));
                assert(data@.map_values(|y: Resource<T>| y.deep()).push(x.deep())
                    + tail.unwrap() =~= data@.map_values(|y: Resource<T>| y.deep()) + (
                seq![x.deep()] + tail.unwrap()));
            }
        }
        data.push(x);
        i = i + 1;
    }
    proof {
        assert(ev.skip(i as int).len() == 0);
        assert(resources_of_json_v::<T>(ev.skip(i as int)) == Some(Seq::<
            ResourceV<T::V>,
        >::empty()));
        assert(resources_of_json_v::<T>(ev) is Some);
        assert(resources_of_json_v::<T>(ev).unwrap() =~= data@.map_values(
            |x: Resource<T>| x.deep(),
        ));
    }
    Ok(data)
}

/// Reads a collection, exactly when the tree has the right shape.
pub fn decode_collection<T: JsonPayload>(j: &JsonValue) -> (r: Result<
    Collection<T>,
    DecodeError,
>)
    ensures
        match r {
            Ok(x) => collection_of_json_v::<T>(j.deep()) == Some(x.deep()),
            Err(_) => collection_of_json_v::<T>(j.deep()) is None,
        },
{
    match j {
        JsonValue::Object(f) => {
            let common: ResourceCommon = match decode_common(f) {
                Ok(x) => x,
                Err(e) => {
                    return Err(e);
                },
            };
            let total_count: u64 = match get_u64(f, "total_count") {
                Ok(x) => x,
                Err(e) => {
                    return Err(e);
                },
            };
            let pages: Pages = match obj_get(f, "pages") {
                Some(pj) => match decode_pages(pj) {
                    Ok(p) => p,
                    Err(e) => {
                        return Err(e);
                    },
                },
                None => {
                    return Err(DecodeError);
                },
            };
            match obj_get(f, "data") {
                Some(JsonValue::Array(elems)) => {
                    match decode_resources::<T>(elems) {
                        Ok(data) => {
                            let result = Collection { common, pages, total_count, data };
                            proof {
                                assert(result.deep().data =~= result.data@.map_values(
                                    |x: Resource<T>| x.deep(),
                                ));
                            }
                            Ok(result)
                        },
                        Err(e) => Err(e),
                    }
                },
                _ => Err(DecodeError),
            }
        },
        _ => Err(DecodeError),
    }
}

/// Writing a valid collection and reading it back yields the same value.
pub proof fn lemma_collection_round_trip<T: JsonPayload>(v: CollectionV<T::V>)
    requires
        collection_v_wf::<T>(v),
    ensures
        collection_of_json_v::<T>(collection_to_json_v::<T>(v)) == Some(v),
{
    let f = common_to_fields(v.common) + seq![
        ("pages"@, pages_to_json(v.pages)),
        ("total_count"@, JsonV::Num(v.total_count as int)),
        ("data"@, JsonV::Array(resources_to_json_v::<T>(v.data))),
    ];
    reveal_strlit("object");
    reveal_strlit("url");
    reveal_strlit("data_updated_at");
    reveal_strlit("pages");
    reveal_strlit("total_count");
    reveal_strlit("data");
    assert("object"@.len() == 6);
    assert("url"@.len() == 3);
    assert("data_updated_at"@.len() == 15);
    assert("pages"@.len() == 5);
    assert("total_count"@.len() == 11);
    assert("data"@.len() == 4);
    assert(f.len() == 6);
    lemma_obj_get_skips(f);
    assert(obj_get_v(f, "object"@) == Some(f[0].1));
    assert(obj_get_v(f, "url"@) == Some(f[1].1));
    assert(obj_get_v(f, "data_updated_at"@) == Some(f[2].1));
    assert(obj_get_v(f, "pages"@) == Some(f[3].1));
    assert(obj_get_v(f, "total_count"@) == Some(f[4].1));
    assert(obj_get_v(f, "data"@) == Some(f[5].1));
    lemma_resource_type_name_round_trip(v.common.object);
    match v.common.data_updated_at {
        Some(t) => {
            crate::timestamp::lemma_rfc3339_round_trip(t);
        },
        None => {},
    }
    lemma_pages_round_trip(v.pages);
    lemma_resources_round_trip::<T>(v.data);
    assert(common_of_fields(f) == Some(v.common));
}

#[verifier::rlimit(100)]
proof fn lemma_resources_round_trip<T: JsonPayload>(rs: Seq<ResourceV<T::V>>)
    requires
        forall|i: int| 0 <= i < rs.len() ==> resource_v_wf::<T>(#[trigger] rs[i]),
    ensures
        resources_of_json_v::<T>(resources_to_json_v::<T>(rs)) == Some(rs),
    decreases rs.len(),
{
    let elems = resources_to_json_v::<T>(rs);
    if rs.len() == 0 {
        assert(elems.len() == 0);
    } else {
        lemma_resource_round_trip::<T>(rs[0]);
        assert(forall|i: int|
            0 <= i < rs.len() - 1 ==> #[trigger] rs.drop_first()[i] == rs[i + 1]);
        lemma_resources_round_trip::<T>(rs.drop_first());
        assert(elems[0] == resource_to_json_v::<T>(rs[0]));
        assert(elems.drop_first() =~= resources_to_json_v::<T>(rs.drop_first()));
        assert(seq![rs[0]] + rs.drop_first() =~= rs);
    }
}

/// The JSON trees of a list of payloads, in order.
pub open spec fn payloads_to_json_v<T: JsonPayload>(vs: Seq<T::V>) -> Seq<JsonV> {
    vs.map_values(|v: T::V| T::to_json_v(v))
}

/// The payloads an array of JSON trees reads back as, if every element has
/// the right shape.
pub open spec fn payloads_of_json_v<T: JsonPayload>(elems: Seq<JsonV>) -> Option<Seq<T::V>>
    decreases elems.len(),
{
    if elems.len() == 0 {
        Some(Seq::empty())
    } else {
        match T::of_json_v(elems[0]) {
            Some(v) => match payloads_of_json_v::<T>(elems.drop_first()) {
                Some(rest) => Some(seq![v] + rest),
                None => None,
            },
            None => None,
        }
    }
}

proof fn lemma_payloads_of_head_bad<T: JsonPayload>(elems: Seq<JsonV>)
    requires
        elems.len() > 0,
        T::of_json_v(elems[0]) is None,
    ensures
        payloads_of_json_v::<T>(elems) is None,
{
}

/// Writes a list of payloads as an array node.
pub fn encode_payload_vec<T: JsonPayload>(vs: &Vec<T>) -> (r: JsonValue)
    requires
        forall|i: int| 0 <= i < vs@.len() ==> T::v_wf((#[trigger] vs@[i]).deep()),
    ensures
        r.deep() == JsonV::Array(payloads_to_json_v::<T>(vs@.map_values(|x: T| x.deep()))),
        r.wf(),
{
    let mut elems: Vec<JsonValue> = Vec::new();
    let mut i: usize = 0;
    while i < vs.len()
        invariant
            i <= vs@.len(),
            elems@.len() == i,
            forall|i0: int| 0 <= i0 < vs@.len() ==> T::v_wf((#[trigger] vs@[i0]).deep()),
            forall|k: int|
                0 <= k < i ==> (#[trigger] elems@[k]).deep() == T::to_json_v(vs@[k].deep())
                    && elems@[k].wf(),
        decreases vs@.len() - i,
    {
        let e = vs[i].encode();
        elems.push(e);
        i = i + 1;
    }
    proof {
        crate::json::lemma_deep_seq(elems@);
        let target = payloads_to_json_v::<T>(vs@.map_values(|x: T| x.deep()));
        assert forall|k: int| 0 <= k < vs@.len() implies crate::json::deep_seq(elems@)[k]
            == target[k] by {
            assert(crate::json::deep_seq(elems@)[k] == elems@[k].deep());
            assert(vs@.map_values(|x: T| x.deep())[k] == vs@[k].deep());
        }
        assert(crate::json::deep_seq(elems@) =~= target);
    }
    JsonValue::Array(elems)
}

/// Reads a list of payloads out of an array node.
pub fn decode_payload_vec<T: JsonPayload>(elems: &Vec<JsonValue>) -> (r: Result<
    Vec<T>,
    DecodeError,
>)
    ensures
        match r {
            Ok(x) => payloads_of_json_v::<T>(crate::json::deep_seq(elems@)) == Some(
                x@.map_values(|y: T| y.deep()),
            ),
            Err(_) => payloads_of_json_v::<T>(crate::json::deep_seq(elems@)) is None,
        },
{
    let ghost ev = crate::json::deep_seq(elems@);
    let mut data: Vec<T> = Vec::new();
    let mut i: usize = 0;
    proof {
        crate::json::lemma_deep_seq(elems@);
        assert(ev.skip(0) =~= ev);
        assert(payloads_of_json_v::<T>(ev) is Some ==> Seq::<T::V>::empty()
            + payloads_of_json_v::<T>(ev).unwrap() =~= payloads_of_json_v::<T>(ev).unwrap());
    }
    while i < elems.len()
        invariant
            i <= elems@.len(),
            ev == crate::json::deep_seq(elems@),
            ev.len() == elems@.len(),
            forall|k: int| 0 <= k < elems@.len() ==> ev[k] == (#[trigger] elems@[k]).deep(),
            data@.len() == i,
            payloads_of_json_v::<T>(ev) is Some <==> payloads_of_json_v::<T>(
                ev.skip(i as int),
            ) is Some,
            payloads_of_json_v::<T>(ev) is Some ==> payloads_of_json_v::<T>(ev).unwrap()
                == data@.map_values(|x: T| x.deep()) + payloads_of_json_v::<T>(
                ev.skip(i as int),
            ).unwrap(),
        decreases elems@.len() - i,
    {
        proof {
            assert(ev.skip(i as int).len() == ev.len() - i);
            assert(ev.skip(i as int)[0] == ev[i as int]);
            assert(ev.skip(i as int).drop_first() =~= ev.skip(i as int + 1));
            assert(ev[i as int] == elems@[i as int].deep());
        }
        let x: T = match T::decode(&elems[i]) {
            Ok(x) => x,
            Err(e) => {
                proof {
                    lemma_payloads_of_head_bad::<T>(ev.skip(i as int));
                }
                return Err(e);
            },
        };
        proof {
            let tail = payloads_of_json_v::<T>(ev.skip(i as int + 1));
            if tail is Some {
                assert(payloads_of_json_v::<T>(ev.skip(i as int)) == Some(
                    seq![x.deep()] + tail.unwrap(),
                ));
                assert(data@.push(x).map_values(|y: T| y.deep()) =~= data@.map_values(
                    |y: T| y.deep(),
                ).push(x.deep()));
                assert(data@.map_values(|y: T| y.deep()).push(x.deep()) + tail.unwrap()
                    =~= data@.map_values(|y: T| y.deep()) + (seq![x.deep()] + tail.unwrap()));
            }
        }
        data.push(x);
        i = i + 1;
    }
    proof {
        assert(ev.skip(i as int).len() == 0);
        assert(payloads_of_json_v::<T>(ev.skip(i as int)) == Some(Seq::<T::V>::empty()));
        assert(payloads_of_json_v::<T>(ev) is Some);
        assert(payloads_of_json_v::<T>(ev).unwrap() =~= data@.map_values(|x: T| x.deep()));
    }
    Ok(data)
}

/// Writing a list of valid payloads and reading it back yields the same
/// list.
pub proof fn lemma_payloads_round_trip<T: JsonPayload>(vs: Seq<T::V>)
    requires
        forall|i: int| 0 <= i < vs.len() ==> T::v_wf(#[trigger] vs[i]),
    ensures
        payloads_of_json_v::<T>(payloads_to_json_v::<T>(vs)) == Some(vs),
    decreases vs.len(),
{
    let elems = payloads_to_json_v::<T>(vs);
    if vs.len() == 0 {
        assert(elems.len() == 0);
    } else {
        T::round_trip(vs[0]);
        assert(forall|i: int|
            0 <= i < vs.len() - 1 ==> #[trigger] vs.drop_first()[i] == vs[i + 1]);
        lemma_payloads_round_trip::<T>(vs.drop_first());
        assert(elems[0] == T::to_json_v(vs[0]));
        assert(elems.drop_first() =~= payloads_to_json_v::<T>(vs.drop_first()));
        assert(seq![vs[0]] + vs.drop_first() =~= vs);
    }
}

/// The report envelope: the shared members and a `data` payload, with no
/// identifier.  The summary report and the user summary take this shape.
pub open spec fn report_to_json_v<T: JsonPayload>(common: ResourceCommonV, data: T::V) -> JsonV {
    JsonV::Object(common_to_fields(common) + seq![("data"@, T::to_json_v(data))])
}

/// The report a JSON tree reads back as, if it has the right shape.
pub open spec fn report_of_json_v<T: JsonPayload>(j: JsonV) -> Option<(ResourceCommonV, T::V)> {
    match j {
        JsonV::Object(f) => match common_of_fields(f) {
            Some(common) => match obj_get_v(f, "data"@) {
                Some(dj) => match T::of_json_v(dj) {
                    Some(data) => Some((common, data)),
                    None => None,
                },
                None => None,
            },
            None => None,
        },
        _ => None,
    }
}

/// Writes a report envelope.
pub fn encode_report<T: JsonPayload>(common: &ResourceCommon, data: &T) -> (j: JsonValue)
    requires
        common.wf(),
        T::v_wf(data.deep()),
    ensures
        j.deep() == report_to_json_v::<T>(common.deep(), data.deep()),
        j.wf(),
{
    let mut fields: Vec<(String, JsonValue)> = Vec::new();
    push_common_fields(&mut fields, common);
    push_field(&mut fields, "data", data.encode());
    proof {
        assert(fields_deep(fields@) =~= common_to_fields(common.deep()) + seq![
            ("data"@, T::to_json_v(data.deep())),
        ]);
        assert(forall|i: int| 0 <= i < fields@.len() ==> (#[trigger] fields@[i]).1.wf());
    }
    JsonValue::Object(fields)
}

/// Reads a report envelope, exactly when the tree has the right shape.
pub fn decode_report<T: JsonPayload>(j: &JsonValue) -> (r: Result<
    (ResourceCommon, T),
    DecodeError,
>)
    ensures
        match r {
            Ok((common, data)) => report_of_json_v::<T>(j.deep()) == Some(
                (common.deep(), data.deep()),
            ),
            Err(_) => report_of_json_v::<T>(j.deep()) is None,
        },
{
    match j {
        JsonValue::Object(f) => {
            let common: ResourceCommon = match decode_common(f) {
                Ok(x) => x,
                Err(e) => {
                    return Err(e);
                },
            };
            match obj_get(f, "data") {
                Some(dj) => match T::decode(dj) {
                    Ok(data) => Ok((common, data)),
                    Err(e) => Err(e),
                },
                None => Err(DecodeError),
            }
        },
        _ => Err(DecodeError),
    }
}

/// Writing a valid report and reading it back yields the same values.
pub proof fn lemma_report_round_trip<T: JsonPayload>(common: ResourceCommonV, data: T::V)
    requires
        common_wf(common),
        T::v_wf(data),
    ensures
        report_of_json_v::<T>(report_to_json_v::<T>(common, data)) == Some((common, data)),
{
    let f = common_to_fields(common) + seq![("data"@, T::to_json_v(data))];
    reveal_strlit("object");
    reveal_strlit("url");
    reveal_strlit("data_updated_at");
    reveal_strlit("data");
    assert("object"@.len() == 6);
    assert("url"@.len() == 3);
    assert("data_updated_at"@.len() == 15);
    assert("data"@.len() == 4);
    assert(f.len() == 4);
    lemma_obj_get_skips(f);
    assert(obj_get_v(f, "object"@) == Some(f[0].1));
    assert(obj_get_v(f, "url"@) == Some(f[1].1));
    assert(obj_get_v(f, "data_updated_at"@) == Some(f[2].1));
    assert(obj_get_v(f, "data"@) == Some(f[3].1));
    lemma_resource_type_name_round_trip(common.object);
    match common.data_updated_at {
        Some(t) => {
            crate::timestamp::lemma_rfc3339_round_trip(t);
        },
        None => {},
    }
    T::round_trip(data);
    assert(common_of_fields(f) == Some(common));
}

} // verus!
