//! Study materials store user-specific notes and synonyms for a given
//! subject.  The records are created as soon as the user enters any study
//! information.
//!
//! The mutation bodies are wrapped in a single-key envelope named after the
//! resource - `{"study_material": {...}}` - because the API expects mutation
//! bodies in this shape.  The wrapper is applied only at the serialization
//! boundary; the record types themselves are envelope-free.

use vstd::prelude::*;

use crate::assignment::{v_str_subject_type, get_subject_type};
use crate::codec::{
    DecodeError, v_bool, v_u64, v_str_seq, v_opt_str, v_time, get_bool, get_u64,
    get_string_vec, get_opt_string, get_time, time_json, opt_str_json, arr_strings,
};
use crate::json::{JsonValue, JsonV, obj_get_v, push_field, fields_deep};
use crate::resource::{JsonPayload, lemma_obj_get_skips};
use crate::subject::{SubjectType, subject_type_name, lemma_subject_type_name_round_trip,
    lemma_strs_round_trip};
use crate::timestamp::{Timestamp, rfc3339, lemma_rfc3339_round_trip};

verus! {

/// Study materials store user-specific notes and synonyms for a given
/// subject.
#[derive(Debug, Clone, PartialEq, Eq)]
pub struct StudyMaterial {
    /// Timestamp when the study material was created.
    pub created_at: Timestamp,
    /// Indicates if the associated subject has been hidden, preventing it
    /// from appearing in lessons or reviews.
    pub hidden: bool,
    /// Free form note related to the meaning(s) of the associated subject.
    pub meaning_note: Option<String>,
    /// Synonyms for the meaning of the subject. These are used as
    /// additional correct answers during reviews.
    pub meaning_synonyms: Vec<String>,
    /// Free form note related to the reading(s) of the associated subject.
    pub reading_note: Option<String>,
    /// Unique identifier of the associated subject.
    pub subject_id: u64,
    /// The type of the associated subject.
    pub subject_type: SubjectType,
}

/// The view of a [`StudyMaterial`].
pub struct StudyMaterialV {
    /// Timestamp when the study material was created.
    pub created_at: Timestamp,
    /// Whether the associated subject has been hidden.
    pub hidden: bool,
    /// Free form meaning note.
    pub meaning_note: Option<Seq<char>>,
    /// Synonyms for the meaning of the subject.
    pub meaning_synonyms: Seq<Seq<char>>,
    /// Free form reading note.
    pub reading_note: Option<Seq<char>>,
    /// Unique identifier of the associated subject.
    pub subject_id: u64,
    /// The type of the associated subject.
    pub subject_type: SubjectType,
}

impl JsonPayload for StudyMaterial {
    type V = StudyMaterialV;

    open spec fn deep(self) -> StudyMaterialV {
        StudyMaterialV {
            created_at: self.created_at,
            hidden: self.hidden,
            meaning_note: match self.meaning_note {
                Some(s) => Some(s@),
                None => None,
            },
            meaning_synonyms: self.meaning_synonyms@.map_values(|s: String| s@),
            reading_note: match self.reading_note {
                Some(s) => Some(s@),
                None => None,
            },
            subject_id: self.subject_id,
            subject_type: self.subject_type,
        }
    }

    open spec fn v_wf(v: StudyMaterialV) -> bool {
        v.created_at.wf()
    }

    open spec fn to_json_v(v: StudyMaterialV) -> JsonV {
        JsonV::Object(
            seq![
                ("created_at"@, JsonV::Str(rfc3339(v.created_at))),
                ("hidden"@, JsonV::Bool(v.hidden)),
                (
                    "meaning_note"@,
                    match v.meaning_note {
                        Some(s) => JsonV::Str(s),
                        None => JsonV::Null,
                    },
                ),
                (
                    "meaning_synonyms"@,
                    JsonV::Array(v.meaning_synonyms.map_values(|s: Seq<char>| JsonV::Str(s))),
                ),
                (
                    "reading_note"@,
                    match v.reading_note {
                        Some(s) => JsonV::Str(s),
                        None => JsonV::Null,
                    },
                ),
                ("subject_id"@, JsonV::Num(v.subject_id as int)),
                ("subject_type"@, JsonV::Str(subject_type_name(v.subject_type))),
            ],
        )
    }

    open spec fn of_json_v(j: JsonV) -> Option<StudyMaterialV> {
        match j {
            JsonV::Object(f) => {
                match (
                    v_time(f, "created_at"@),
                    v_bool(f, "hidden"@),
                    v_opt_str(f, "meaning_note"@),
                    v_str_seq(f, "meaning_synonyms"@),
                    v_opt_str(f, "reading_note"@),
                    v_u64(f, "subject_id"@),
                    v_str_subject_type(f),
                ) {
                    (
                        Some(created_at),
                        Some(hidden),
                        Some(meaning_note),
                        Some(meaning_synonyms),
                        Some(reading_note),
                        Some(subject_id),
                        Some(subject_type),
                    ) => Some(
                        StudyMaterialV {
                            created_at,
                            hidden,
                            meaning_note,
                            meaning_synonyms,
                            reading_note,
                            subject_id,
                            subject_type,
                        },
                    ),
                    _ => None,
                }
            },
            _ => None,
        }
    }

    #[verifier::rlimit(100)]
    fn encode(&self) -> (r: JsonValue) {
        let mut fields: Vec<(String, JsonValue)> = Vec::new();
        push_field(&mut fields, "created_at", time_json(&self.created_at));
        push_field(&mut fields, "hidden", JsonValue::Bool(self.hidden));
        push_field(&mut fields, "meaning_note", opt_str_json(&self.meaning_note));
        push_field(&mut fields, "meaning_synonyms", arr_strings(&self.meaning_synonyms));
        proof {
            assert(self.meaning_synonyms@.map_values(|s: String| JsonV::Str(s@))
                =~= self.meaning_synonyms@.map_values(|s: String| s@).map_values(
                |s: Seq<char>| JsonV::Str(s),
            ));
        }
        push_field(&mut fields, "reading_note", opt_str_json(&self.reading_note));
        push_field(&mut fields, "subject_id", JsonValue::of_u64(self.subject_id));
        push_field(&mut fields, "subject_type", JsonValue::Str(self.subject_type.to_string()));
        proof {
            assert(fields_deep(fields@) =~= Self::to_json_v(self.deep())->Object_0);
            assert(forall|i: int| 0 <= i < fields@.len() ==> (#[trigger] fields@[i]).1.wf());
        }
        JsonValue::Object(fields)
    }

    fn decode(j: &JsonValue) -> (r: Result<Self, DecodeError>) {
        match j {
            JsonValue::Object(f) => {
                let created_at = match get_time(f, "created_at") {
                    Ok(x) => x,
                    Err(e) => {
                        return Err(e);
                    },
                };
                let hidden = match get_bool(f, "hidden") {
                    Ok(x) => x,
                    Err(e) => {
                        return Err(e);
                    },
                };
                let meaning_note = match get_opt_string(f, "meaning_note") {
                    Ok(x) => x,
                    Err(e) => {
                        return Err(e);
                    },
                };
                let meaning_synonyms = match get_string_vec(f, "meaning_synonyms") {
                    Ok(x) => x,
                    Err(e) => {
                        return Err(e);
                    },
                };
                let reading_note = match get_opt_string(f, "reading_note") {
                    Ok(x) => x,
                    Err(e) => {
                        return Err(e);
                    },
                };
                let subject_id = match get_u64(f, "subject_id") {
                    Ok(x) => x,
                    Err(e) => {
                        return Err(e);
                    },
                };
                let subject_type = match get_subject_type(f) {
                    Ok(x) => x,
                    Err(e) => {
                        return Err(e);
                    },
                };
                Ok(
                    StudyMaterial {
                        created_at,
                        hidden,
                        meaning_note,
                        meaning_synonyms,
                        reading_note,
                        subject_id,
                        subject_type,
                    },
                )
            },
            _ => Err(DecodeError),
        }
    }

    #[verifier::rlimit(100)]
    proof fn round_trip(v: StudyMaterialV) {
        let f = Self::to_json_v(v)->Object_0;
        reveal_strlit("created_at");
        reveal_strlit("hidden");
        reveal_strlit("meaning_note");
        reveal_strlit("meaning_synonyms");
        reveal_strlit("reading_note");
        reveal_strlit("subject_id");
        reveal_strlit("subject_type");
        assert("created_at"@.len() == 10);
        assert("hidden"@.len() == 6);
        assert("meaning_note"@.len() == 12);
        assert("meaning_synonyms"@.len() == 16);
        assert("reading_note"@.len() == 12);
        assert("subject_id"@.len() == 10);
        assert("subject_type"@.len() == 12);
        assert("created_at"@[0] != "subject_id"@[0]);
        assert("meaning_note"@[0] != "reading_note"@[0]);
        assert("meaning_note"@[0] != "subject_type"@[0]);
        assert("reading_note"@[0] != "subject_type"@[0]);
        assert(f.len() == 7);
        lemma_obj_get_skips(f);
        assert(obj_get_v(f, "created_at"@) == Some(f[0].1));
        assert(obj_get_v(f, "hidden"@) == Some(f[1].1));
        assert(obj_get_v(f, "meaning_note"@) == Some(f[2].1));
        assert(obj_get_v(f, "meaning_synonyms"@) == Some(f[3].1));
        assert(obj_get_v(f, "reading_note"@) == Some(f[4].1));
        assert(obj_get_v(f, "subject_id"@) == Some(f[5].1));
        assert(obj_get_v(f, "subject_type"@) == Some(f[6].1));
        lemma_rfc3339_round_trip(v.created_at);
        lemma_subject_type_name_round_trip(v.subject_type);
        lemma_strs_round_trip(v.meaning_synonyms);
    }
}

/// Creates a study material for a specific `subject_id`.
///
/// The owner of the api key can only create one study material per
/// `subject_id`.
#[derive(Debug, Clone, PartialEq, Eq)]
pub struct CreateStudyMaterial {
    /// Unique identifier of the subject.
    pub subject_id: u64,
    /// Meaning notes specific for the subject.
    pub meaning_note: Option<String>,
    /// Reading notes specific for the subject.
    pub reading_note: Option<String>,
    /// Meaning synonyms for the subject.
    pub meaning_synonyms: Option<Vec<String>>,
}

/// The members of a create request, before the wrapper: `subject_id`
/// always, and each optional field exactly when it is set.
pub open spec fn create_study_material_members(v: CreateStudyMaterial) -> Seq<
    (Seq<char>, JsonV),
> {
    seq![("subject_id"@, JsonV::Num(v.subject_id as int))] + opt_note_member(
        "meaning_note"@,
        v.meaning_note,
    ) + opt_note_member("reading_note"@, v.reading_note) + opt_synonyms_member(
        "meaning_synonyms"@,
        v.meaning_synonyms,
    )
}

/// The full body of a create request: the members wrapped under the single
/// `study_material` key.
pub open spec fn create_study_material_to_json(v: CreateStudyMaterial) -> JsonV {
    JsonV::Object(
        seq![("study_material"@, JsonV::Object(create_study_material_members(v)))],
    )
}

/// A member present only when the note is set.
pub open spec fn opt_note_member(key: Seq<char>, v: Option<String>) -> Seq<(Seq<char>, JsonV)> {
    match v {
        Some(s) => seq![(key, JsonV::Str(s@))],
        None => Seq::empty(),
    }
}

/// A member present only when the synonym list is set.
pub open spec fn opt_synonyms_member(key: Seq<char>, v: Option<Vec<String>>) -> Seq<
    (Seq<char>, JsonV),
> {
    match v {
        Some(xs) => seq![
            (key, JsonV::Array(xs@.map_values(|s: String| JsonV::Str(s@)))),
        ],
        None => Seq::empty(),
    }
}

impl CreateStudyMaterial {
    /// A create request with only the subject set.
    pub fn new(subject_id: u64) -> (r: CreateStudyMaterial)
        ensures
            r.subject_id == subject_id,
            r.meaning_note is None,
            r.reading_note is None,
            r.meaning_synonyms is None,
    {
        CreateStudyMaterial {
            subject_id,
            meaning_note: None,
            reading_note: None,
            meaning_synonyms: None,
        }
    }

    /// Writes the request body: the set fields in declaration order, under
    /// the `study_material` wrapper key; unset fields are omitted entirely.
    #[verifier::rlimit(100)]
    pub fn encode(&self) -> (r: JsonValue)
        ensures
            r.deep() == create_study_material_to_json(*self),
            r.wf(),
    {
        let mut inner: Vec<(String, JsonValue)> = Vec::new();
        let ghost mut done: Seq<(Seq<char>, JsonV)> = Seq::empty();
        push_field(&mut inner, "subject_id", JsonValue::of_u64(self.subject_id));
        proof {
            done = seq![("subject_id"@, JsonV::Num(self.subject_id as int))];
            assert(fields_deep(inner@) =~= done);
        }
        match &self.meaning_note {
            Some(s) => {
                push_field(&mut inner, "meaning_note", JsonValue::of_string(s));
            },
            None => {},
        }
        proof {
            done = done + opt_note_member("meaning_note"@, self.meaning_note);
            assert(fields_deep(inner@) =~= done);
        }
        match &self.reading_note {
            Some(s) => {
                push_field(&mut inner, "reading_note", JsonValue::of_string(s));
            },
            None => {},
        }
        proof {
            done = done + opt_note_member("reading_note"@, self.reading_note);
            assert(fields_deep(inner@) =~= done);
        }
        match &self.meaning_synonyms {
            Some(xs) => {
                push_field(&mut inner, "meaning_synonyms", arr_strings(xs));
            },
            None => {},
        }
        proof {
            done = done + opt_synonyms_member("meaning_synonyms"@, self.meaning_synonyms);
            assert(fields_deep(inner@) =~= done);
            assert(done =~= create_study_material_members(*self));
            assert(forall|i: int| 0 <= i < inner@.len() ==> (#[trigger] inner@[i]).1.wf());
        }
        let mut outer: Vec<(String, JsonValue)> = Vec::new();
        push_field(&mut outer, "study_material", JsonValue::Object(inner));
        proof {
            assert(fields_deep(outer@) =~= create_study_material_to_json(*self)->Object_0);
            assert(forall|i: int| 0 <= i < outer@.len() ==> (#[trigger] outer@[i]).1.wf());
        }
        JsonValue::Object(outer)
    }
}

/// Updates a study material for a specific `id`.
#[derive(Debug, Clone, PartialEq, Eq)]
pub struct UpdateStudyMaterial {
    /// Meaning notes specific for the subject.
    pub meaning_note: Option<String>,
    /// Reading notes specific for the subject.
    pub reading_note: Option<String>,
    /// Meaning synonyms for the subject.
    pub meaning_synonyms: Option<Vec<String>>,
}

/// The members of an update request, before the wrapper: each optional
/// field exactly when it is set.
pub open spec fn update_study_material_members(v: UpdateStudyMaterial) -> Seq<
    (Seq<char>, JsonV),
> {
    opt_note_member("meaning_note"@, v.meaning_note) + opt_note_member(
        "reading_note"@,
        v.reading_note,
    ) + opt_synonyms_member("meaning_synonyms"@, v.meaning_synonyms)
}

/// The full body of an update request: the members wrapped under the single
/// `study_material` key.
pub open spec fn update_study_material_to_json(v: UpdateStudyMaterial) -> JsonV {
    JsonV::Object(
        seq![("study_material"@, JsonV::Object(update_study_material_members(v)))],
    )
}

impl UpdateStudyMaterial {
    /// An update with every field unset.
    pub fn new() -> (r: UpdateStudyMaterial)
        ensures
            r.meaning_note is None,
            r.reading_note is None,
            r.meaning_synonyms is None,
    {
        UpdateStudyMaterial { meaning_note: None, reading_note: None, meaning_synonyms: None }
    }

    /// Writes the request body: the set fields in declaration order, under
    /// the `study_material` wrapper key; unset fields are omitted entirely.
    #[verifier::rlimit(100)]
    pub fn encode(&self) -> (r: JsonValue)
        ensures
            r.deep() == update_study_material_to_json(*self),
            r.wf(),
    {
        let mut inner: Vec<(String, JsonValue)> = Vec::new();
        let ghost mut done: Seq<(Seq<char>, JsonV)> = Seq::empty();
        proof {
            assert(fields_deep(inner@) =~= done);
        }
        match &self.meaning_note {
            Some(s) => {
                push_field(&mut inner, "meaning_note", JsonValue::of_string(s));
            },
            None => {},
        }
        proof {
            done = done + opt_note_member("meaning_note"@, self.meaning_note);
            assert(fields_deep(inner@) =~= done);
        }
        match &self.reading_note {
            Some(s) => {
                push_field(&mut inner, "reading_note", JsonValue::of_string(s));
            },
            None => {},
        }
        proof {
            done = done + opt_note_member("reading_note"@, self.reading_note);
            assert(fields_deep(inner@) =~= done);
        }
        match &self.meaning_synonyms {
            Some(xs) => {
                push_field(&mut inner, "meaning_synonyms", arr_strings(xs));
            },
            None => {},
        }
        proof {
            done = done + opt_synonyms_member("meaning_synonyms"@, self.meaning_synonyms);
            assert(fields_deep(inner@) =~= done);
            assert(done =~= update_study_material_members(*self));
            assert(forall|i: int| 0 <= i < inner@.len() ==> (#[trigger] inner@[i]).1.wf());
        }
        let mut outer: Vec<(String, JsonValue)> = Vec::new();
        push_field(&mut outer, "study_material", JsonValue::Object(inner));
        proof {
            assert(fields_deep(outer@) =~= update_study_material_to_json(*self)->Object_0);
            assert(forall|i: int| 0 <= i < outer@.len() ==> (#[trigger] outer@[i]).1.wf());
        }
        JsonValue::Object(outer)
    }
}

} // verus!
