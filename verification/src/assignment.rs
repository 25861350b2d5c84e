//! Assignments contain information about a user's progress on a particular
//! subject, including their current state and timestamps for various
//! progress milestones.  Assignments are created when a user has passed all
//! the components of the given subject and the assignment is at or below
//! their current level for the first time.

use vstd::prelude::*;

use crate::codec::{
    DecodeError, v_u64, v_u32, v_bool, v_opt_time, v_time, get_u64, get_u32, get_bool,
    get_opt_time, get_time, opt_time_json, time_json,
};
use crate::json::{JsonValue, JsonV, obj_get_v, push_field, fields_deep};
use crate::resource::{JsonPayload, lemma_obj_get_skips};
use crate::subject::{SubjectType, subject_type_name, subject_type_of_name,
    lemma_subject_type_name_round_trip};
use crate::timestamp::{Timestamp, rfc3339, lemma_rfc3339_round_trip};

verus! {

/// Assignments contain information about a user's progress on a particular
/// subject, including their current state and timestamps for various
/// progress milestones.
#[derive(Debug, Clone, Copy, PartialEq, Eq)]
pub struct Assignment {
    /// Timestamp when the related subject will be available in the user's
    /// review queue.
    pub available_at: Option<Timestamp>,
    /// Timestamp when the user reaches SRS stage `9` the first time.
    pub burned_at: Option<Timestamp>,
    /// Timestamp when the assignment was created.
    pub created_at: Timestamp,
    /// Indicates if the associated subject has been hidden, preventing it
    /// from appearing in lessons or reviews.
    pub hidden: bool,
    /// Timestamp when the user reaches SRS stage `5` for the first time.
    pub passed_at: Option<Timestamp>,
    /// Timestamp when the subject is resurrected and placed back in the
    /// user's review queue.
    pub resurrected_at: Option<Timestamp>,
    /// The current SRS stage interval. The interval range is determined by
    /// the related subject's spaced repetition system.
    pub srs_stage: u32,
    /// Timestamp when the user completes the lesson for the related subject.
    pub started_at: Option<Timestamp>,
    /// Unique identifier of the associated subject.
    pub subject_id: crate::Id,
    /// The type of the associated subject.
    pub subject_type: SubjectType,
    /// The timestamp when the related subject has its prerequisites
    /// satisfied and is made available in lessons.
    pub unlocked_at: Option<Timestamp>,
}

/// A timestamp that is valid if present.
pub open spec fn opt_wf(t: Option<Timestamp>) -> bool {
    t matches Some(x) ==> x.wf()
}

/// The JSON member for an optional timestamp.
pub open spec fn opt_time_v(t: Option<Timestamp>) -> JsonV {
    match t {
        Some(x) => JsonV::Str(rfc3339(x)),
        None => JsonV::Null,
    }
}

impl JsonPayload for Assignment {
    type V = Assignment;

    open spec fn deep(self) -> Assignment {
        self
    }

    open spec fn v_wf(v: Assignment) -> bool {
        &&& opt_wf(v.available_at)
        &&& opt_wf(v.burned_at)
        &&& v.created_at.wf()
        &&& opt_wf(v.passed_at)
        &&& opt_wf(v.resurrected_at)
        &&& opt_wf(v.started_at)
        &&& opt_wf(v.unlocked_at)
    }

    open spec fn to_json_v(v: Assignment) -> JsonV {
        JsonV::Object(
            seq![
                ("available_at"@, opt_time_v(v.available_at)),
                ("burned_at"@, opt_time_v(v.burned_at)),
                ("created_at"@, JsonV::Str(rfc3339(v.created_at))),
                ("hidden"@, JsonV::Bool(v.hidden)),
                ("passed_at"@, opt_time_v(v.passed_at)),
                ("resurrected_at"@, opt_time_v(v.resurrected_at)),
                ("srs_stage"@, JsonV::Num(v.srs_stage as int)),
                ("started_at"@, opt_time_v(v.started_at)),
                ("subject_id"@, JsonV::Num(v.subject_id as int)),
                ("subject_type"@, JsonV::Str(subject_type_name(v.subject_type))),
                ("unlocked_at"@, opt_time_v(v.unlocked_at)),
            ],
        )
    }

    open spec fn of_json_v(j: JsonV) -> Option<Assignment> {
        match j {
            JsonV::Object(f) => {
                match (
                    v_opt_time(f, "available_at"@),
                    v_opt_time(f, "burned_at"@),
                    v_time(f, "created_at"@),
                    v_bool(f, "hidden"@),
                    v_opt_time(f, "passed_at"@),
                    v_opt_time(f, "resurrected_at"@),
                    v_u32(f, "srs_stage"@),
                    v_opt_time(f, "started_at"@),
                    v_u64(f, "subject_id"@),
                    v_str_subject_type(f),
                    v_opt_time(f, "unlocked_at"@),
                ) {
                    (
                        Some(available_at),
                        Some(burned_at),
                        Some(created_at),
                        Some(hidden),
                        Some(passed_at),
                        Some(resurrected_at),
                        Some(srs_stage),
                        Some(started_at),
                        Some(subject_id),
                        Some(subject_type),
                        Some(unlocked_at),
                    ) => Some(
                        Assignment {
                            available_at,
                            burned_at,
                            created_at,
                            hidden,
                            passed_at,
                            resurrected_at,
                            srs_stage,
                            started_at,
                            subject_id,
                            subject_type,
                            unlocked_at,
                        },
                    ),
                    _ => None,
                }
            },
            _ => None,
        }
    }

    #[verifier::rlimit(100)]
    fn encode(&self) -> (r: JsonValue) {
        let mut fields: Vec<(String, JsonValue)> = Vec::new();
        push_field(&mut fields, "available_at", opt_time_json(&self.available_at));
        push_field(&mut fields, "burned_at", opt_time_json(&self.burned_at));
        push_field(&mut fields, "created_at", time_json(&self.created_at));
        push_field(&mut fields, "hidden", JsonValue::Bool(self.hidden));
        push_field(&mut fields, "passed_at", opt_time_json(&self.passed_at));
        push_field(&mut fields, "resurrected_at", opt_time_json(&self.resurrected_at));
        push_field(&mut fields, "srs_stage", JsonValue::of_u64(self.srs_stage as u64));
        push_field(&mut fields, "started_at", opt_time_json(&self.started_at));
        push_field(&mut fields, "subject_id", JsonValue::of_u64(self.subject_id));
        push_field(&mut fields, "subject_type", JsonValue::Str(self.subject_type.to_string()));
        push_field(&mut fields, "unlocked_at", opt_time_json(&self.unlocked_at));
        proof {
            assert(fields_deep(fields@) =~= Self::to_json_v(*self)->Object_0);
            assert(forall|i: int| 0 <= i < fields@.len() ==> (#[trigger] fields@[i]).1.wf());
        }
        JsonValue::Object(fields)
    }

    fn decode(j: &JsonValue) -> (r: Result<Self, DecodeError>) {
        match j {
            JsonValue::Object(f) => {
                let available_at = match get_opt_time(f, "available_at") {
                    Ok(x) => x,
                    Err(e) => {
                        return Err(e);
                    },
                };
                let burned_at = match get_opt_time(f, "burned_at") {
                    Ok(x) => x,
                    Err(e) => {
                        return Err(e);
                    },
                };
                let created_at = match get_time(f, "created_at") {
                    Ok(x) => x,
                    Err(e) => {
                        return Err(e);
                    },
                };
                let hidden = match get_bool(f, "hidden") {
                    Ok(x) => x,
                    Err(e) => {
                        return Err(e);
                    },
                };
                let passed_at = match get_opt_time(f, "passed_at") {
                    Ok(x) => x,
                    Err(e) => {
                        return Err(e);
                    },
                };
                let resurrected_at = match get_opt_time(f, "resurrected_at") {
                    Ok(x) => x,
                    Err(e) => {
                        return Err(e);
                    },
                };
                let srs_stage = match get_u32(f, "srs_stage") {
                    Ok(x) => x,
                    Err(e) => {
                        return Err(e);
                    },
                };
                let started_at = match get_opt_time(f, "started_at") {
                    Ok(x) => x,
                    Err(e) => {
                        return Err(e);
                    },
                };
                let subject_id = match get_u64(f, "subject_id") {
                    Ok(x) => x,
                    Err(e) => {
                        return Err(e);
                    },
                };
                let subject_type = match get_subject_type(f) {
                    Ok(x) => x,
                    Err(e) => {
                        return Err(e);
                    },
                };
                let unlocked_at = match get_opt_time(f, "unlocked_at") {
                    Ok(x) => x,
                    Err(e) => {
                        return Err(e);
                    },
                };
                Ok(
                    Assignment {
                        available_at,
                        burned_at,
                        created_at,
                        hidden,
                        passed_at,
                        resurrected_at,
                        srs_stage,
                        started_at,
                        subject_id,
                        subject_type,
                        unlocked_at,
                    },
                )
            },
            _ => Err(DecodeError),
        }
    }

    #[verifier::rlimit(100)]
    proof fn round_trip(v: Assignment) {
        let f = Self::to_json_v(v)->Object_0;
        reveal_strlit("available_at");
        reveal_strlit("burned_at");
        reveal_strlit("created_at");
        reveal_strlit("hidden");
        reveal_strlit("passed_at");
        reveal_strlit("resurrected_at");
        reveal_strlit("srs_stage");
        reveal_strlit("started_at");
        reveal_strlit("subject_id");
        reveal_strlit("subject_type");
        reveal_strlit("unlocked_at");
        assert("available_at"@.len() == 12);
        assert("burned_at"@.len() == 9);
        assert("created_at"@.len() == 10);
        assert("hidden"@.len() == 6);
        assert("passed_at"@.len() == 9);
        assert("resurrected_at"@.len() == 14);
        assert("srs_stage"@.len() == 9);
        assert("started_at"@.len() == 10);
        assert("subject_id"@.len() == 10);
        assert("subject_type"@.len() == 12);
        assert("unlocked_at"@.len() == 11);
        assert("burned_at"@[0] != "passed_at"@[0]);
        assert("burned_at"@[0] != "srs_stage"@[0]);
        assert("passed_at"@[0] != "srs_stage"@[0]);
        assert("created_at"@[0] != "started_at"@[0]);
        assert("created_at"@[0] != "subject_id"@[0]);
        assert("started_at"@[1] != "subject_id"@[1]);
        assert("available_at"@[0] != "subject_type"@[0]);
        assert(f.len() == 11);
        lemma_obj_get_skips(f);
        assert(obj_get_v(f, "available_at"@) == Some(f[0].1));
        assert(obj_get_v(f, "burned_at"@) == Some(f[1].1));
        assert(obj_get_v(f, "created_at"@) == Some(f[2].1));
        assert(obj_get_v(f, "hidden"@) == Some(f[3].1));
        assert(obj_get_v(f, "passed_at"@) == Some(f[4].1));
        assert(obj_get_v(f, "resurrected_at"@) == Some(f[5].1));
        assert(obj_get_v(f, "srs_stage"@) == Some(f[6].1));
        assert(obj_get_v(f, "started_at"@) == Some(f[7].1));
        assert(obj_get_v(f, "subject_id"@) == Some(f[8].1));
        assert(obj_get_v(f, "subject_type"@) == Some(f[9].1));
        assert(obj_get_v(f, "unlocked_at"@) == Some(f[10].1));
        lemma_opt_time_round_trip(v.available_at);
        lemma_opt_time_round_trip(v.burned_at);
        lemma_rfc3339_round_trip(v.created_at);
        lemma_opt_time_round_trip(v.passed_at);
        lemma_opt_time_round_trip(v.resurrected_at);
        lemma_opt_time_round_trip(v.started_at);
        lemma_opt_time_round_trip(v.unlocked_at);
        lemma_subject_type_name_round_trip(v.subject_type);
    }
}

/// Parsing back the member written for an optional timestamp yields it.
pub proof fn lemma_opt_time_round_trip(t: Option<Timestamp>)
    requires
        opt_wf(t),
    ensures
        t matches Some(x) ==> crate::timestamp::parse_rfc3339_v(rfc3339(x)) == Some(x),
{
    match t {
        Some(x) => {
            lemma_rfc3339_round_trip(x);
        },
        None => {},
    }
}

/// The field's value as a subject type tag.
pub open spec fn v_str_subject_type(f: Seq<(Seq<char>, JsonV)>) -> Option<SubjectType> {
    match crate::codec::v_str(f, "subject_type"@) {
        Some(s) => subject_type_of_name(s),
        None => None,
    }
}

/// Reads the `subject_type` field.
pub fn get_subject_type(f: &Vec<(String, JsonValue)>) -> (r: Result<SubjectType, DecodeError>)
    ensures
        match r {
            Ok(x) => v_str_subject_type(fields_deep(f@)) == Some(x),
            Err(_) => v_str_subject_type(fields_deep(f@)) is None,
        },
{
    match crate::codec::get_string(f, "subject_type") {
        Ok(s) => match SubjectType::from_name(s.as_str()) {
            Some(t) => Ok(t),
            None => Err(DecodeError),
        },
        Err(e) => Err(e),
    }
}

/// Mark the assignment as started, moving the assignment from the lessons
/// queue to the review queue.
#[derive(Debug, Clone, Copy, PartialEq, Eq)]
pub struct AssignmentStart {
    /// If not set, `started_at` will default to the time the request is
    /// made.
    ///
    /// `started_at` must be greater than or equal to `unlocked_at`.
    pub started_at: Option<Timestamp>,
}

/// The body of a start-assignment request: the `started_at` member appears
/// only when it was explicitly set.
pub open spec fn assignment_start_to_json(v: AssignmentStart) -> JsonV {
    match v.started_at {
        Some(t) => JsonV::Object(seq![("started_at"@, JsonV::Str(rfc3339(t)))]),
        None => JsonV::Object(Seq::empty()),
    }
}

impl AssignmentStart {
    /// Writes the request body; an unset `started_at` is omitted, not
    /// `null`.
    pub fn encode(&self) -> (r: JsonValue)
        requires
            opt_wf(self.started_at),
        ensures
            r.deep() == assignment_start_to_json(*self),
            r.wf(),
    {
        let mut fields: Vec<(String, JsonValue)> = Vec::new();
        match &self.started_at {
            Some(t) => {
                push_field(&mut fields, "started_at", time_json(t));
            },
            None => {},
        }
        proof {
            assert(fields_deep(fields@) =~= assignment_start_to_json(*self)->Object_0);
            assert(forall|i: int| 0 <= i < fields@.len() ==> (#[trigger] fields@[i]).1.wf());
        }
        JsonValue::Object(fields)
    }
}

} // verus!
