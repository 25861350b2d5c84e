//! The summary report contains currently available lessons and reviews and
//! the reviews that will become available in the next 24 hours, grouped by
//! the hour.

use vstd::prelude::*;

use crate::assignment::{opt_wf, opt_time_v};
use crate::codec::{DecodeError, v_u64_seq, v_time, v_opt_time, get_u64_vec, get_time,
    get_opt_time, time_json, opt_time_json, arr_u64};
use crate::json::{JsonValue, JsonV, obj_get_v, obj_get, push_field, fields_deep};
use crate::resource::{
    JsonPayload, ResourceCommon, lemma_obj_get_skips, payloads_to_json_v, payloads_of_json_v,
    encode_payload_vec, decode_payload_vec, lemma_payloads_round_trip, report_to_json_v,
    report_of_json_v, encode_report, decode_report,
};
use crate::subject::{lemma_nums_round_trip};
use crate::timestamp::{Timestamp, rfc3339, lemma_rfc3339_round_trip};

verus! {

/// Summary of available lessons, or of an upcoming review period
#[derive(Debug, Clone, PartialEq, Eq)]
pub struct ReviewLessonSummary {
    /// When the paired `subject_ids` are available for lessons or review.
    /// All timestamps are the top of an hour.
    pub available_at: Timestamp,
    /// Collection of unique identifiers for subjects.
    pub subject_ids: Vec<crate::Id>,
}

/// The view of a [`ReviewLessonSummary`].
pub struct ReviewLessonSummaryV {
    /// When the paired subjects are available.
    pub available_at: Timestamp,
    /// The subject identifiers.
    pub subject_ids: Seq<u64>,
}

impl JsonPayload for ReviewLessonSummary {
    type V = ReviewLessonSummaryV;

    open spec fn deep(self) -> ReviewLessonSummaryV {
        ReviewLessonSummaryV { available_at: self.available_at, subject_ids: self.subject_ids@ }
    }

    open spec fn v_wf(v: ReviewLessonSummaryV) -> bool {
        v.available_at.wf()
    }

    open spec fn to_json_v(v: ReviewLessonSummaryV) -> JsonV {
        JsonV::Object(
            seq![
                ("available_at"@, JsonV::Str(rfc3339(v.available_at))),
                (
                    "subject_ids"@,
                    JsonV::Array(v.subject_ids.map_values(|x: u64| JsonV::Num(x as int))),
                ),
            ],
        )
    }

    open spec fn of_json_v(j: JsonV) -> Option<ReviewLessonSummaryV> {
        match j {
            JsonV::Object(f) => {
                match (v_time(f, "available_at"@), v_u64_seq(f, "subject_ids"@)) {
                    (Some(available_at), Some(subject_ids)) => Some(
                        ReviewLessonSummaryV { available_at, subject_ids },
                    ),
                    _ => None,
                }
            },
            _ => None,
        }
    }

    #[verifier::rlimit(100)]
    fn encode(&self) -> (r: JsonValue) {
        let mut fields: Vec<(String, JsonValue)> = Vec::new();
        push_field(&mut fields, "available_at", time_json(&self.available_at));
        push_field(&mut fields, "subject_ids", arr_u64(&self.subject_ids));
        proof {
            assert(fields_deep(fields@) =~= Self::to_json_v(self.deep())->Object_0);
            assert(forall|i: int| 0 <= i < fields@.len() ==> (#[trigger] fields@[i]).1.wf());
        }
        JsonValue::Object(fields)
    }

    fn decode(j: &JsonValue) -> (r: Result<Self, DecodeError>) {
        match j {
            JsonValue::Object(f) => {
                let available_at = match get_time(f, "available_at") {
                    Ok(x) => x,
                    Err(e) => {
                        return Err(e);
                    },
                };
                let subject_ids = match get_u64_vec(f, "subject_ids") {
                    Ok(x) => x,
                    Err(e) => {
                        return Err(e);
                    },
                };
                Ok(ReviewLessonSummary { available_at, subject_ids })
            },
            _ => Err(DecodeError),
        }
    }

    #[verifier::rlimit(100)]
    proof fn round_trip(v: ReviewLessonSummaryV) {
        let f = Self::to_json_v(v)->Object_0;
        reveal_strlit("available_at");
        reveal_strlit("subject_ids");
        assert("available_at"@.len() == 12);
        assert("subject_ids"@.len() == 11);
        assert(f.len() == 2);
        lemma_obj_get_skips(f);
        assert(obj_get_v(f, "available_at"@) == Some(f[0].1));
        assert(obj_get_v(f, "subject_ids"@) == Some(f[1].1));
        lemma_rfc3339_round_trip(v.available_at);
        lemma_nums_round_trip(v.subject_ids);
    }
}

/// Summary report data
#[derive(Debug, Clone, PartialEq, Eq)]
pub struct SummaryData {
    /// Details about subjects available for lessons.
    pub lessons: Vec<ReviewLessonSummary>,
    /// Earliest date when the reviews are available. Is `None` when the
    /// user has no reviews scheduled.
    pub next_reviews_at: Option<Timestamp>,
    /// Details about subjects available for reviews now and in the next 24
    /// hours by the hour.
    pub reviews: Vec<ReviewLessonSummary>,
}

/// The view of a [`SummaryData`].
pub struct SummaryDataV {
    /// Details about subjects available for lessons.
    pub lessons: Seq<ReviewLessonSummaryV>,
    /// Earliest date when the reviews are available.
    pub next_reviews_at: Option<Timestamp>,
    /// Details about upcoming reviews.
    pub reviews: Seq<ReviewLessonSummaryV>,
}

impl JsonPayload for SummaryData {
    type V = SummaryDataV;

    open spec fn deep(self) -> SummaryDataV {
        SummaryDataV {
            lessons: self.lessons@.map_values(|x: ReviewLessonSummary| x.deep()),
            next_reviews_at: self.next_reviews_at,
            reviews: self.reviews@.map_values(|x: ReviewLessonSummary| x.deep()),
        }
    }

    open spec fn v_wf(v: SummaryDataV) -> bool {
        &&& forall|i: int|
            0 <= i < v.lessons.len() ==> (#[trigger] v.lessons[i]).available_at.wf()
        &&& opt_wf(v.next_reviews_at)
        &&& forall|i: int|
            0 <= i < v.reviews.len() ==> (#[trigger] v.reviews[i]).available_at.wf()
    }

    open spec fn to_json_v(v: SummaryDataV) -> JsonV {
        JsonV::Object(
            seq![
                ("lessons"@, JsonV::Array(payloads_to_json_v::<ReviewLessonSummary>(v.lessons))),
                ("next_reviews_at"@, opt_time_v(v.next_reviews_at)),
                ("reviews"@, JsonV::Array(payloads_to_json_v::<ReviewLessonSummary>(v.reviews))),
            ],
        )
    }

    open spec fn of_json_v(j: JsonV) -> Option<SummaryDataV> {
        match j {
            JsonV::Object(f) => {
                match (
                    obj_get_v(f, "lessons"@),
                    v_opt_time(f, "next_reviews_at"@),
                    obj_get_v(f, "reviews"@),
                ) {
                    (
                        Some(JsonV::Array(ls)),
                        Some(next_reviews_at),
                        Some(JsonV::Array(rs)),
                    ) => match (
                        payloads_of_json_v::<ReviewLessonSummary>(ls),
                        payloads_of_json_v::<ReviewLessonSummary>(rs),
                    ) {
                        (Some(lessons), Some(reviews)) => Some(
                            SummaryDataV { lessons, next_reviews_at, reviews },
                        ),
                        _ => None,
                    },
                    _ => None,
                }
            },
            _ => None,
        }
    }

    #[verifier::rlimit(100)]
    fn encode(&self) -> (r: JsonValue) {
        proof {
            assert forall|i: int|
                0 <= i < self.lessons@.len() implies ReviewLessonSummary::v_wf(
                (#[trigger] self.lessons@[i]).deep(),
            ) by {
                assert(self.deep().lessons[i] == self.lessons@[i].deep());
            }
            assert forall|i: int|
                0 <= i < self.reviews@.len() implies ReviewLessonSummary::v_wf(
                (#[trigger] self.reviews@[i]).deep(),
            ) by {
                assert(self.deep().reviews[i] == self.reviews@[i].deep());
            }
        }
        let mut fields: Vec<(String, JsonValue)> = Vec::new();
        push_field(
            &mut fields,
            "lessons",
            encode_payload_vec::<ReviewLessonSummary>(&self.lessons),
        );
        push_field(&mut fields, "next_reviews_at", opt_time_json(&self.next_reviews_at));
        push_field(
            &mut fields,
            "reviews",
            encode_payload_vec::<ReviewLessonSummary>(&self.reviews),
        );
        proof {
            assert(fields_deep(fields@) =~= Self::to_json_v(self.deep())->Object_0);
            assert(forall|i: int| 0 <= i < fields@.len() ==> (#[trigger] fields@[i]).1.wf());
        }
        JsonValue::Object(fields)
    }

    fn decode(j: &JsonValue) -> (r: Result<Self, DecodeError>) {
        match j {
            JsonValue::Object(f) => {
                let lessons: Vec<ReviewLessonSummary> = match obj_get(f, "lessons") {
                    Some(JsonValue::Array(elems)) => match decode_payload_vec::<
                        ReviewLessonSummary,
                    >(elems) {
                        Ok(x) => x,
                        Err(e) => {
                            return Err(e);
                        },
                    },
                    _ => {
                        return Err(DecodeError);
                    },
                };
                let next_reviews_at = match get_opt_time(f, "next_reviews_at") {
                    Ok(x) => x,
                    Err(e) => {
                        return Err(e);
                    },
                };
                let reviews: Vec<ReviewLessonSummary> = match obj_get(f, "reviews") {
                    Some(JsonValue::Array(elems)) => match decode_payload_vec::<
                        ReviewLessonSummary,
                    >(elems) {
                        Ok(x) => x,
                        Err(e) => {
                            return Err(e);
                        },
                    },
                    _ => {
                        return Err(DecodeError);
                    },
                };
                Ok(SummaryData { lessons, next_reviews_at, reviews })
            },
            _ => Err(DecodeError),
        }
    }

    #[verifier::rlimit(100)]
    proof fn round_trip(v: SummaryDataV) {
        let f = Self::to_json_v(v)->Object_0;
        reveal_strlit("lessons");
        reveal_strlit("next_reviews_at");
        reveal_strlit("reviews");
        assert("lessons"@.len() == 7);
        assert("next_reviews_at"@.len() == 15);
        assert("reviews"@.len() == 7);
        assert("lessons"@[0] != "reviews"@[0]);
        assert(f.len() == 3);
        lemma_obj_get_skips(f);
        assert(obj_get_v(f, "lessons"@) == Some(f[0].1));
        assert(obj_get_v(f, "next_reviews_at"@) == Some(f[1].1));
        assert(obj_get_v(f, "reviews"@) == Some(f[2].1));
        lemma_payloads_round_trip::<ReviewLessonSummary>(v.lessons);
        lemma_payloads_round_trip::<ReviewLessonSummary>(v.reviews);
        match v.next_reviews_at {
            Some(t) => {
                lemma_rfc3339_round_trip(t);
            },
            None => {},
        }
    }
}

/// The summary report contains currently available lessons and reviews and
/// the reviews that will become available in the next 24 hours, grouped by
/// the hour.
#[derive(Debug, Clone, PartialEq, Eq)]
pub struct Summary {
    /// Common resource data
    pub common: ResourceCommon,
    /// The summary report data
    pub data: SummaryData,
}

impl Summary {
    /// Writes the report envelope around the summary data.
    pub fn encode(&self) -> (r: JsonValue)
        requires
            self.common.wf(),
            SummaryData::v_wf(self.data.deep()),
        ensures
            r.deep() == report_to_json_v::<SummaryData>(self.common.deep(), self.data.deep()),
            r.wf(),
    {
        encode_report::<SummaryData>(&self.common, &self.data)
    }

    /// Reads a summary report, exactly when the tree has the right shape.
    pub fn decode(j: &JsonValue) -> (r: Result<Summary, DecodeError>)
        ensures
            match r {
                Ok(x) => report_of_json_v::<SummaryData>(j.deep()) == Some(
                    (x.common.deep(), x.data.deep()),
                ),
                Err(_) => report_of_json_v::<SummaryData>(j.deep()) is None,
            },
    {
        match decode_report::<SummaryData>(j) {
            Ok((common, data)) => Ok(Summary { common, data }),
            Err(e) => Err(e),
        }
    }
}

} // verus!
