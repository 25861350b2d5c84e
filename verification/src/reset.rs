//! Users can reset their progress back to any level at or below their
//! current level.  When they reset to a particular level, all of the
//! assignments and review statistics at that level or higher are set back
//! to their default state.
//!
//! Resets contain information about when those resets happen, the starting
//! level, and the target level.

use vstd::prelude::*;

use crate::assignment::{opt_wf, opt_time_v, lemma_opt_time_round_trip};
use crate::codec::{DecodeError, v_u32, v_opt_time, v_time, get_u32, get_opt_time, get_time,
    opt_time_json, time_json};
use crate::json::{JsonValue, JsonV, obj_get_v, push_field, fields_deep};
use crate::resource::{JsonPayload, lemma_obj_get_skips};
use crate::timestamp::{Timestamp, rfc3339, lemma_rfc3339_round_trip};

verus! {

/// Users can reset their progress back to any level at or below their
/// current level.
///
/// Resets contain information about when those resets happen, the starting
/// level, and the target level.
#[derive(Debug, Clone, Copy, PartialEq, Eq)]
pub struct Reset {
    /// Timestamp when the user confirmed the reset.
    pub confirmed_at: Option<Timestamp>,
    /// Timestamp when the reset was created.
    pub created_at: Timestamp,
    /// The user's level before the reset
    pub original_level: u32,
    /// The user's level after the reset. It must be less than or equal to
    /// `original_level`.
    pub target_level: u32,
}

impl JsonPayload for Reset {
    type V = Reset;

    open spec fn deep(self) -> Reset {
        self
    }

    open spec fn v_wf(v: Reset) -> bool {
        &&& opt_wf(v.confirmed_at)
        &&& v.created_at.wf()
    }

    open spec fn to_json_v(v: Reset) -> JsonV {
        JsonV::Object(
            seq![
                ("confirmed_at"@, opt_time_v(v.confirmed_at)),
                ("created_at"@, JsonV::Str(rfc3339(v.created_at))),
                ("original_level"@, JsonV::Num(v.original_level as int)),
                ("target_level"@, JsonV::Num(v.target_level as int)),
            ],
        )
    }

    open spec fn of_json_v(j: JsonV) -> Option<Reset> {
        match j {
            JsonV::Object(f) => {
                match (
                    v_opt_time(f, "confirmed_at"@),
                    v_time(f, "created_at"@),
                    v_u32(f, "original_level"@),
                    v_u32(f, "target_level"@),
                ) {
                    (
                        Some(confirmed_at),
                        Some(created_at),
                        Some(original_level),
                        Some(target_level),
                    ) => Some(Reset { confirmed_at, created_at, original_level, target_level }),
                    _ => None,
                }
            },
            _ => None,
        }
    }

    #[verifier::rlimit(100)]
    fn encode(&self) -> (r: JsonValue) {
        let mut fields: Vec<(String, JsonValue)> = Vec::new();
        push_field(&mut fields, "confirmed_at", opt_time_json(&self.confirmed_at));
        push_field(&mut fields, "created_at", time_json(&self.created_at));
        push_field(&mut fields, "original_level", JsonValue::of_u64(self.original_level as u64));
        push_field(&mut fields, "target_level", JsonValue::of_u64(self.target_level as u64));
        proof {
            assert(fields_deep(fields@) =~= Self::to_json_v(*self)->Object_0);
            assert(forall|i: int| 0 <= i < fields@.len() ==> (#[trigger] fields@[i]).1.wf());
        }
        JsonValue::Object(fields)
    }

    fn decode(j: &JsonValue) -> (r: Result<Self, DecodeError>) {
        match j {
            JsonValue::Object(f) => {
                let confirmed_at = match get_opt_time(f, "confirmed_at") {
                    Ok(x) => x,
                    Err(e) => {
                        return Err(e);
                    },
                };
                let created_at = match get_time(f, "created_at") {
                    Ok(x) => x,
                    Err(e) => {
                        return Err(e);
                    },
                };
                let original_level = match get_u32(f, "original_level") {
                    Ok(x) => x,
                    Err(e) => {
                        return Err(e);
                    },
                };
                let target_level = match get_u32(f, "target_level") {
                    Ok(x) => x,
                    Err(e) => {
                        return Err(e);
                    },
                };
                Ok(Reset { confirmed_at, created_at, original_level, target_level })
            },
            _ => Err(DecodeError),
        }
    }

    #[verifier::rlimit(100)]
    proof fn round_trip(v: Reset) {
        let f = Self::to_json_v(v)->Object_0;
        reveal_strlit("confirmed_at");
        reveal_strlit("created_at");
        reveal_strlit("original_level");
        reveal_strlit("target_level");
        assert("confirmed_at"@.len() == 12);
        assert("created_at"@.len() == 10);
        assert("original_level"@.len() == 14);
        assert("target_level"@.len() == 12);
        assert("confirmed_at"@[0] != "target_level"@[0]);
        assert(f.len() == 4);
        lemma_obj_get_skips(f);
        assert(obj_get_v(f, "confirmed_at"@) == Some(f[0].1));
        assert(obj_get_v(f, "created_at"@) == Some(f[1].1));
        assert(obj_get_v(f, "original_level"@) == Some(f[2].1));
        assert(obj_get_v(f, "target_level"@) == Some(f[3].1));
        lemma_opt_time_round_trip(v.confirmed_at);
        lemma_rfc3339_round_trip(v.created_at);
    }
}

} // verus!
