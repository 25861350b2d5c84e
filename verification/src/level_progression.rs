//! Level progressions contain information about a user's progress through
//! the WaniKani levels.
//!
//! A level progression is created when a user has met the prerequisites for
//! leveling up.

use vstd::prelude::*;

use crate::assignment::{opt_wf, opt_time_v, lemma_opt_time_round_trip};
use crate::codec::{DecodeError, v_u32, v_opt_time, v_time, get_u32, get_opt_time, get_time,
    opt_time_json, time_json};
use crate::json::{JsonValue, JsonV, obj_get_v, push_field, fields_deep};
use crate::resource::{JsonPayload, lemma_obj_get_skips};
use crate::timestamp::{Timestamp, rfc3339, lemma_rfc3339_round_trip};

verus! {

/// Level progressions contain information about a user's progress through
/// the WaniKani levels.
///
/// A level progression is created when a user has met the prerequisites for
/// leveling up.
#[derive(Debug, Clone, Copy, PartialEq, Eq)]
pub struct LevelProgression {
    /// Timestamp when the user abandons the level. This is primary used
    /// when the user initiates a reset.
    pub abandoned_at: Option<Timestamp>,
    /// Timestamp when the user burns 100% of the assignments belonging to
    /// the associated subject's level.
    pub completed_at: Option<Timestamp>,
    /// Timestamp when the level progression is created.
    pub created_at: Timestamp,
    /// The level of the progression.
    pub level: u32,
    /// Timestamp when the user passes at least 90% of the assignments with
    /// a type of kanji belonging to the associated subject's level.
    pub passed_at: Option<Timestamp>,
    /// Timestamp when the user starts their first lesson of a subject
    /// belonging to the level.
    pub started_at: Option<Timestamp>,
    /// Timestamp when the user can access lessons and reviews for the
    /// `level`.
    pub unlocked_at: Option<Timestamp>,
}

impl JsonPayload for LevelProgression {
    type V = LevelProgression;

    open spec fn deep(self) -> LevelProgression {
        self
    }

    open spec fn v_wf(v: LevelProgression) -> bool {
        &&& opt_wf(v.abandoned_at)
        &&& opt_wf(v.completed_at)
        &&& v.created_at.wf()
        &&& opt_wf(v.passed_at)
        &&& opt_wf(v.started_at)
        &&& opt_wf(v.unlocked_at)
    }

    open spec fn to_json_v(v: LevelProgression) -> JsonV {
        JsonV::Object(
            seq![
                ("abandoned_at"@, opt_time_v(v.abandoned_at)),
                ("completed_at"@, opt_time_v(v.completed_at)),
                ("created_at"@, JsonV::Str(rfc3339(v.created_at))),
                ("level"@, JsonV::Num(v.level as int)),
                ("passed_at"@, opt_time_v(v.passed_at)),
                ("started_at"@, opt_time_v(v.started_at)),
                ("unlocked_at"@, opt_time_v(v.unlocked_at)),
            ],
        )
    }

    open spec fn of_json_v(j: JsonV) -> Option<LevelProgression> {
        match j {
            JsonV::Object(f) => {
                match (
                    v_opt_time(f, "abandoned_at"@),
                    v_opt_time(f, "completed_at"@),
                    v_time(f, "created_at"@),
                    v_u32(f, "level"@),
                    v_opt_time(f, "passed_at"@),
                    v_opt_time(f, "started_at"@),
                    v_opt_time(f, "unlocked_at"@),
                ) {
                    (
                        Some(abandoned_at),
                        Some(completed_at),
                        Some(created_at),
                        Some(level),
                        Some(passed_at),
                        Some(started_at),
                        Some(unlocked_at),
                    ) => Some(
                        LevelProgression {
                            abandoned_at,
                            completed_at,
                            created_at,
                            level,
                            passed_at,
                            started_at,
                            unlocked_at,
                        },
                    ),
                    _ => None,
                }
            },
            _ => None,
        }
    }

    #[verifier::rlimit(100)]
    fn encode(&self) -> (r: JsonValue) {
        let mut fields: Vec<(String, JsonValue)> = Vec::new();
        push_field(&mut fields, "abandoned_at", opt_time_json(&self.abandoned_at));
        push_field(&mut fields, "completed_at", opt_time_json(&self.completed_at));
        push_field(&mut fields, "created_at", time_json(&self.created_at));
        push_field(&mut fields, "level", JsonValue::of_u64(self.level as u64));
        push_field(&mut fields, "passed_at", opt_time_json(&self.passed_at));
        push_field(&mut fields, "started_at", opt_time_json(&self.started_at));
        push_field(&mut fields, "unlocked_at", opt_time_json(&self.unlocked_at));
        proof {
            assert(fields_deep(fields@) =~= Self::to_json_v(*self)->Object_0);
            assert(forall|i: int| 0 <= i < fields@.len() ==> (#[trigger] fields@[i]).1.wf());
        }
        JsonValue::Object(fields)
    }

    fn decode(j: &JsonValue) -> (r: Result<Self, DecodeError>) {
        match j {
            JsonValue::Object(f) => {
                let abandoned_at = match get_opt_time(f, "abandoned_at") {
                    Ok(x) => x,
                    Err(e) => {
                        return Err(e);
                    },
                };
                let completed_at = match get_opt_time(f, "completed_at") {
                    Ok(x) => x,
                    Err(e) => {
                        return Err(e);
                    },
                };
                let created_at = match get_time(f, "created_at") {
                    Ok(x) => x,
                    Err(e) => {
                        return Err(e);
                    },
                };
                let level = match get_u32(f, "level") {
                    Ok(x) => x,
                    Err(e) => {
                        return Err(e);
                    },
                };
                let passed_at = match get_opt_time(f, "passed_at") {
                    Ok(x) => x,
                    Err(e) => {
                        return Err(e);
                    },
                };
                let started_at = match get_opt_time(f, "started_at") {
                    Ok(x) => x,
                    Err(e) => {
                        return Err(e);
                    },
                };
                let unlocked_at = match get_opt_time(f, "unlocked_at") {
                    Ok(x) => x,
                    Err(e) => {
                        return Err(e);
                    },
                };
                Ok(
                    LevelProgression {
                        abandoned_at,
                        completed_at,
                        created_at,
                        level,
                        passed_at,
                        started_at,
                        unlocked_at,
                    },
                )
            },
            _ => Err(DecodeError),
        }
    }

    #[verifier::rlimit(100)]
    proof fn round_trip(v: LevelProgression) {
        let f = Self::to_json_v(v)->Object_0;
        reveal_strlit("abandoned_at");
        reveal_strlit("completed_at");
        reveal_strlit("created_at");
        reveal_strlit("level");
        reveal_strlit("passed_at");
        reveal_strlit("started_at");
        reveal_strlit("unlocked_at");
        assert("abandoned_at"@.len() == 12);
        assert("completed_at"@.len() == 12);
        assert("created_at"@.len() == 10);
        assert("level"@.len() == 5);
        assert("passed_at"@.len() == 9);
        assert("started_at"@.len() == 10);
        assert("unlocked_at"@.len() == 11);
        assert("abandoned_at"@[0] != "completed_at"@[0]);
        assert("created_at"@[0] != "started_at"@[0]);
        assert(f.len() == 7);
        lemma_obj_get_skips(f);
        assert(obj_get_v(f, "abandoned_at"@) == Some(f[0].1));
        assert(obj_get_v(f, "completed_at"@) == Some(f[1].1));
        assert(obj_get_v(f, "created_at"@) == Some(f[2].1));
        assert(obj_get_v(f, "level"@) == Some(f[3].1));
        assert(obj_get_v(f, "passed_at"@) == Some(f[4].1));
        assert(obj_get_v(f, "started_at"@) == Some(f[5].1));
        assert(obj_get_v(f, "unlocked_at"@) == Some(f[6].1));
        lemma_opt_time_round_trip(v.abandoned_at);
        lemma_opt_time_round_trip(v.completed_at);
        lemma_rfc3339_round_trip(v.created_at);
        lemma_opt_time_round_trip(v.passed_at);
        lemma_opt_time_round_trip(v.started_at);
        lemma_opt_time_round_trip(v.unlocked_at);
    }
}

} // verus!
