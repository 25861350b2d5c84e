//! Review statistics summarize the activity recorded in reviews.  They sum
//! the number of correct and incorrect answers for both meaning and
//! reading.  They track current and maximum streaks of correct answers.
//! They store the overall percentage of correct answers versus total
//! answers.
//!
//! A review statistic is created when the user has done their first review
//! on the related subject.

use vstd::prelude::*;

use crate::assignment::{v_str_subject_type, get_subject_type};
use crate::codec::{DecodeError, v_u64, v_u32, v_bool, v_time, get_u64, get_u32, get_bool,
    get_time, time_json};
use crate::json::{JsonValue, JsonV, obj_get_v, push_field, fields_deep};
use crate::resource::{JsonPayload, lemma_obj_get_skips};
use crate::subject::{SubjectType, subject_type_name, lemma_subject_type_name_round_trip};
use crate::timestamp::{Timestamp, rfc3339, lemma_rfc3339_round_trip};

verus! {

/// Review statistics summarize the activity recorded in reviews.
///
/// A review statistic is created when the user has done their first review
/// on the related subject.
#[derive(Debug, Clone, Copy, PartialEq, Eq)]
pub struct ReviewStatistic {
    /// Timestamp when the review statistic was created.
    pub created_at: Timestamp,
    /// Indicates if the associated subject has been hidden, preventing it
    /// from appearing in lessons or reviews.
    pub hidden: bool,
    /// Total number of correct answers submitted for the meaning of the
    /// associated subject.
    pub meaning_correct: u32,
    /// The current, uninterrupted series of correct answers given for the
    /// meaning of the associated subject.
    pub meaning_current_streak: u32,
    /// Total number of incorrect answers submitted for the meaning of the
    /// associated subject.
    pub meaning_incorrect: u32,
    /// The longest, uninterrupted series of correct answers ever given for
    /// the meaning of the associated subject.
    pub meaning_max_streak: u32,
    /// The overall correct answer rate by the user for the subject,
    /// including both meaning and reading.
    pub percentage_correct: u32,
    /// Total number of correct answers submitted for the reading of the
    /// associated subject.
    pub reading_correct: u32,
    /// The current, uninterrupted series of correct answers given for the
    /// reading of the associated subject.
    pub reading_current_streak: u32,
    /// Total number of incorrect answers submitted for the reading of the
    /// associated subject.
    pub reading_incorrect: u32,
    /// The longest, uninterrupted series of correct answers ever given for
    /// the reading of the associated subject.
    pub reading_max_streak: u32,
    /// Unique identifier of the associated subject.
    pub subject_id: crate::Id,
    /// The type of the associated subject.
    pub subject_type: SubjectType,
}

impl JsonPayload for ReviewStatistic {
    type V = ReviewStatistic;

    open spec fn deep(self) -> ReviewStatistic {
        self
    }

    open spec fn v_wf(v: ReviewStatistic) -> bool {
        v.created_at.wf()
    }

    open spec fn to_json_v(v: ReviewStatistic) -> JsonV {
        JsonV::Object(
            seq![
                ("created_at"@, JsonV::Str(rfc3339(v.created_at))),
                ("hidden"@, JsonV::Bool(v.hidden)),
                ("meaning_correct"@, JsonV::Num(v.meaning_correct as int)),
                ("meaning_current_streak"@, JsonV::Num(v.meaning_current_streak as int)),
                ("meaning_incorrect"@, JsonV::Num(v.meaning_incorrect as int)),
                ("meaning_max_streak"@, JsonV::Num(v.meaning_max_streak as int)),
                ("percentage_correct"@, JsonV::Num(v.percentage_correct as int)),
                ("reading_correct"@, JsonV::Num(v.reading_correct as int)),
                ("reading_current_streak"@, JsonV::Num(v.reading_current_streak as int)),
                ("reading_incorrect"@, JsonV::Num(v.reading_incorrect as int)),
                ("reading_max_streak"@, JsonV::Num(v.reading_max_streak as int)),
                ("subject_id"@, JsonV::Num(v.subject_id as int)),
                ("subject_type"@, JsonV::Str(subject_type_name(v.subject_type))),
            ],
        )
    }

    open spec fn of_json_v(j: JsonV) -> Option<ReviewStatistic> {
        match j {
            JsonV::Object(f) => {
                match (
                    v_time(f, "created_at"@),
                    v_bool(f, "hidden"@),
                    v_u32(f, "meaning_correct"@),
                    v_u32(f, "meaning_current_streak"@),
                    v_u32(f, "meaning_incorrect"@),
                    v_u32(f, "meaning_max_streak"@),
                    v_u32(f, "percentage_correct"@),
                    v_u32(f, "reading_correct"@),
                    v_u32(f, "reading_current_streak"@),
                    v_u32(f, "reading_incorrect"@),
                    v_u32(f, "reading_max_streak"@),
                    v_u64(f, "subject_id"@),
                    v_str_subject_type(f),
                ) {
                    (
                        Some(created_at),
                        Some(hidden),
                        Some(meaning_correct),
                        Some(meaning_current_streak),
                        Some(meaning_incorrect),
                        Some(meaning_max_streak),
                        Some(percentage_correct),
                        Some(reading_correct),
                        Some(reading_current_streak),
                        Some(reading_incorrect),
                        Some(reading_max_streak),
                        Some(subject_id),
                        Some(subject_type),
                    ) => Some(
                        ReviewStatistic {
                            created_at,
                            hidden,
                            meaning_correct,
                            meaning_current_streak,
                            meaning_incorrect,
                            meaning_max_streak,
                            percentage_correct,
                            reading_correct,
                            reading_current_streak,
                            reading_incorrect,
                            reading_max_streak,
                            subject_id,
                            subject_type,
                        },
                    ),
                    _ => None,
                }
            },
            _ => None,
        }
    }

    #[verifier::rlimit(100)]
    fn encode(&self) -> (r: JsonValue) {
        let mut fields: Vec<(String, JsonValue)> = Vec::new();
        push_field(&mut fields, "created_at", time_json(&self.created_at));
        push_field(&mut fields, "hidden", JsonValue::Bool(self.hidden));
        push_field(&mut fields, "meaning_correct", JsonValue::of_u64(self.meaning_correct as u64));
        push_field(
            &mut fields,
            "meaning_current_streak",
            JsonValue::of_u64(self.meaning_current_streak as u64),
        );
        push_field(
            &mut fields,
            "meaning_incorrect",
            JsonValue::of_u64(self.meaning_incorrect as u64),
        );
        push_field(
            &mut fields,
            "meaning_max_streak",
            JsonValue::of_u64(self.meaning_max_streak as u64),
        );
        push_field(
            &mut fields,
            "percentage_correct",
            JsonValue::of_u64(self.percentage_correct as u64),
        );
        push_field(&mut fields, "reading_correct", JsonValue::of_u64(self.reading_correct as u64));
        push_field(
            &mut fields,
            "reading_current_streak",
            JsonValue::of_u64(self.reading_current_streak as u64),
        );
        push_field(
            &mut fields,
            "reading_incorrect",
            JsonValue::of_u64(self.reading_incorrect as u64),
        );
        push_field(
            &mut fields,
            "reading_max_streak",
            JsonValue::of_u64(self.reading_max_streak as u64),
        );
        push_field(&mut fields, "subject_id", JsonValue::of_u64(self.subject_id));
        push_field(&mut fields, "subject_type", JsonValue::Str(self.subject_type.to_string()));
        proof {
            assert(fields_deep(fields@) =~= Self::to_json_v(*self)->Object_0);
            assert(forall|i: int| 0 <= i < fields@.len() ==> (#[trigger] fields@[i]).1.wf());
        }
        JsonValue::Object(fields)
    }

    fn decode(j: &JsonValue) -> (r: Result<Self, DecodeError>) {
        match j {
            JsonValue::Object(f) => {
                let created_at = match get_time(f, "created_at") {
                    Ok(x) => x,
                    Err(e) => {
                        return Err(e);
                    },
                };
                let hidden = match get_bool(f, "hidden") {
                    Ok(x) => x,
                    Err(e) => {
                        return Err(e);
                    },
                };
                let meaning_correct = match get_u32(f, "meaning_correct") {
                    Ok(x) => x,
                    Err(e) => {
                        return Err(e);
                    },
                };
                let meaning_current_streak = match get_u32(f, "meaning_current_streak") {
                    Ok(x) => x,
                    Err(e) => {
                        return Err(e);
                    },
                };
                let meaning_incorrect = match get_u32(f, "meaning_incorrect") {
                    Ok(x) => x,
                    Err(e) => {
                        return Err(e);
                    },
                };
                let meaning_max_streak = match get_u32(f, "meaning_max_streak") {
                    Ok(x) => x,
                    Err(e) => {
                        return Err(e);
                    },
                };
                let percentage_correct = match get_u32(f, "percentage_correct") {
                    Ok(x) => x,
                    Err(e) => {
                        return Err(e);
                    },
                };
                let reading_correct = match get_u32(f, "reading_correct") {
                    Ok(x) => x,
                    Err(e) => {
                        return Err(e);
                    },
                };
                let reading_current_streak = match get_u32(f, "reading_current_streak") {
                    Ok(x) => x,
                    Err(e) => {
                        return Err(e);
                    },
                };
                let reading_incorrect = match get_u32(f, "reading_incorrect") {
                    Ok(x) => x,
                    Err(e) => {
                        return Err(e);
                    },
                };
                let reading_max_streak = match get_u32(f, "reading_max_streak") {
                    Ok(x) => x,
                    Err(e) => {
                        return Err(e);
                    },
                };
                let subject_id = match get_u64(f, "subject_id") {
                    Ok(x) => x,
                    Err(e) => {
                        return Err(e);
                    },
                };
                let subject_type = match get_subject_type(f) {
                    Ok(x) => x,
                    Err(e) => {
                        return Err(e);
                    },
                };
                Ok(
                    ReviewStatistic {
                        created_at,
                        hidden,
                        meaning_correct,
                        meaning_current_streak,
                        meaning_incorrect,
                        meaning_max_streak,
                        percentage_correct,
                        reading_correct,
                        reading_current_streak,
                        reading_incorrect,
                        reading_max_streak,
                        subject_id,
                        subject_type,
                    },
                )
            },
            _ => Err(DecodeError),
        }
    }

    #[verifier::rlimit(100)]
    proof fn round_trip(v: ReviewStatistic) {
        let f = Self::to_json_v(v)->Object_0;
        reveal_strlit("created_at");
        reveal_strlit("hidden");
        reveal_strlit("meaning_correct");
        reveal_strlit("meaning_current_streak");
        reveal_strlit("meaning_incorrect");
        reveal_strlit("meaning_max_streak");
        reveal_strlit("percentage_correct");
        reveal_strlit("reading_correct");
        reveal_strlit("reading_current_streak");
        reveal_strlit("reading_incorrect");
        reveal_strlit("reading_max_streak");
        reveal_strlit("subject_id");
        reveal_strlit("subject_type");
        assert("created_at"@.len() == 10);
        assert("hidden"@.len() == 6);
        assert("meaning_correct"@.len() == 15);
        assert("meaning_current_streak"@.len() == 22);
        assert("meaning_incorrect"@.len() == 17);
        assert("meaning_max_streak"@.len() == 18);
        assert("percentage_correct"@.len() == 18);
        assert("reading_correct"@.len() == 15);
        assert("reading_current_streak"@.len() == 22);
        assert("reading_incorrect"@.len() == 17);
        assert("reading_max_streak"@.len() == 18);
        assert("subject_id"@.len() == 10);
        assert("subject_type"@.len() == 12);
        assert("created_at"@[0] != "subject_id"@[0]);
        assert("meaning_correct"@[0] != "reading_correct"@[0]);
        assert("meaning_current_streak"@[0] != "reading_current_streak"@[0]);
        assert("meaning_incorrect"@[0] != "reading_incorrect"@[0]);
        assert("meaning_max_streak"@[0] != "reading_max_streak"@[0]);
        assert("meaning_max_streak"@[0] != "percentage_correct"@[0]);
        assert("percentage_correct"@[0] != "reading_max_streak"@[0]);
        assert(f.len() == 13);
        lemma_obj_get_skips(f);
        assert(obj_get_v(f, "created_at"@) == Some(f[0].1));
        assert(obj_get_v(f, "hidden"@) == Some(f[1].1));
        assert(obj_get_v(f, "meaning_correct"@) == Some(f[2].1));
        assert(obj_get_v(f, "meaning_current_streak"@) == Some(f[3].1));
        assert(obj_get_v(f, "meaning_incorrect"@) == Some(f[4].1));
        assert(obj_get_v(f, "meaning_max_streak"@) == Some(f[5].1));
        assert(obj_get_v(f, "percentage_correct"@) == Some(f[6].1));
        assert(obj_get_v(f, "reading_correct"@) == Some(f[7].1));
        assert(obj_get_v(f, "reading_current_streak"@) == Some(f[8].1));
        assert(obj_get_v(f, "reading_incorrect"@) == Some(f[9].1));
        assert(obj_get_v(f, "reading_max_streak"@) == Some(f[10].1));
        assert(obj_get_v(f, "subject_id"@) == Some(f[11].1));
        assert(obj_get_v(f, "subject_type"@) == Some(f[12].1));
        lemma_rfc3339_round_trip(v.created_at);
        lemma_subject_type_name_round_trip(v.subject_type);
    }
}

} // verus!
