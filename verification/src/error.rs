//! The error taxonomy, and the classification of non-success responses.
//!
//! Classification never fails: a 429 response becomes a rate-limit error
//! whose reset time comes from the `Ratelimit-Reset` header (epoch zero when
//! the header is absent or not a number), any other non-success status with
//! a decodable error body becomes an API error, and a body that is not a
//! WaniKani error envelope surfaces as a client error.

use vstd::prelude::*;

use crate::codec::{v_i32, v_opt_str, DecodeError};
use crate::json::{JsonValue, JsonV, obj_get_v, push_field, fields_deep};
use crate::num::{dec_int, parse_i64_spec, parse_i64, i64_to_string, str_to_chars};
use crate::timestamp::{civil_of_epoch, from_epoch_seconds, Timestamp, MAX_EPOCH_SECONDS};

verus! {

/// The API's own error envelope.
#[derive(Debug, Clone, PartialEq, Eq)]
pub struct WanikaniError {
    /// The numeric error code. This is likely going to match the HTTP status
    /// code.
    pub code: i32,
    /// The returned error message, if one was sent by the API
    pub error: Option<String>,
}

/// The view of a [`WanikaniError`].
pub struct WanikaniErrorV {
    /// The numeric error code.
    pub code: i32,
    /// The returned error message, if any.
    pub error: Option<Seq<char>>,
}

impl WanikaniError {
    /// The view of this value.
    pub open spec fn deep(self) -> WanikaniErrorV {
        WanikaniErrorV {
            code: self.code,
            error: match self.error {
                Some(s) => Some(s@),
                None => None,
            },
        }
    }

    /// The message shown for this error: the API's own message when one was
    /// sent, else a sentence naming the code.
    pub open spec fn message_v(self) -> Seq<char> {
        match self.error {
            Some(s) => s@,
            None => "Error code "@ + dec_int(self.code as int) + " received"@,
        }
    }

    /// Writes the error's message.
    pub fn to_string(&self) -> (r: String)
        ensures
            r@ == self.message_v(),
    {
        match &self.error {
            Some(s) => s.clone(),
            None => {
                let mut r = String::new();
                r.append("Error code ");
                let code_str = i64_to_string(self.code as i64);
                r.append(code_str.as_str());
                r.append(" received");
                r
            },
        }
    }
}

/// The body of an error response.
pub open spec fn wanikani_error_to_json(e: WanikaniErrorV) -> JsonV {
    JsonV::Object(
        seq![
            ("code"@, JsonV::Num(e.code as int)),
            (
                "error"@,
                match e.error {
                    Some(s) => JsonV::Str(s),
                    None => JsonV::Null,
                },
            ),
        ],
    )
}

/// Reads an error envelope out of a body: an object with a numeric `code`
/// and a string-or-null `error`.
pub open spec fn wanikani_error_of_json(j: JsonV) -> Option<WanikaniErrorV> {
    match j {
        JsonV::Object(f) => match (v_i32(f, "code"@), v_opt_str(f, "error"@)) {
            (Some(code), Some(error)) => Some(WanikaniErrorV { code, error }),
            _ => None,
        },
        _ => None,
    }
}

/// Writes an error envelope.
pub fn encode_wanikani_error(e: &WanikaniError) -> (r: JsonValue)
    ensures
        r.deep() == wanikani_error_to_json(e.deep()),
        r.wf(),
{
    let mut fields: Vec<(String, JsonValue)> = Vec::new();
    push_field(&mut fields, "code", JsonValue::of_i64(e.code as i64));
    push_field(&mut fields, "error", crate::codec::opt_str_json(&e.error));
    proof {
        assert(fields_deep(fields@) =~= wanikani_error_to_json(e.deep())->Object_0);
    }
    JsonValue::Object(fields)
}

/// Reads an error envelope.
pub fn decode_wanikani_error(j: &JsonValue) -> (r: Result<WanikaniError, DecodeError>)
    ensures
        match r {
            Ok(e) => wanikani_error_of_json(j.deep()) == Some(e.deep()),
            Err(_) => wanikani_error_of_json(j.deep()) is None,
        },
{
    match j {
        JsonValue::Object(f) => {
            let code = match crate::codec::get_i32(f, "code") {
                Ok(c) => c,
                Err(e) => {
                    return Err(e);
                },
            };
            let error = match crate::codec::get_opt_string(f, "error") {
                Ok(x) => x,
                Err(e) => {
                    return Err(e);
                },
            };
            Ok(WanikaniError { code, error })
        },
        _ => Err(DecodeError),
    }
}

/// Reading back a written error envelope yields the same value.
pub proof fn lemma_wanikani_error_round_trip(e: WanikaniErrorV)
    ensures
        wanikani_error_of_json(wanikani_error_to_json(e)) == Some(e),
{
    let f = wanikani_error_to_json(e)->Object_0;
    reveal_with_fuel(obj_get_v, 4);
    reveal_strlit("code");
    reveal_strlit("error");
    assert("code"@.len() == 4);
    assert("error"@.len() == 5);
    assert("code"@ != "error"@);
    assert(f.drop_first() =~= seq![f[1]]);
    assert(obj_get_v(f, "code"@) == Some(f[0].1));
    assert(obj_get_v(f, "error"@) == Some(f[1].1));
}

/// Possible error conditions
#[derive(Debug, Clone, PartialEq, Eq)]
pub enum Error {
    /// An error was returned by WaniKani.
    WaniKaniError(WanikaniError),
    /// There was some error in the HTTP transport, or a response body could
    /// not be decoded; the message describes it.
    Client(String),
    /// Rate Limits have been exceeded. Please wait for the limit to reset.
    ///
    /// This variant includes timestamp information for when the rate limit
    /// should reset. This can be used to pause requests until they will
    /// start returning data again.
    RateLimit {
        /// The error struct returned by WaniKani
        error: WanikaniError,
        /// The time when the rate limit should reset
        reset_time: Timestamp,
    },
}

/// The epoch seconds named by a `Ratelimit-Reset` header: its value as a
/// decimal integer, or zero when the header is absent or not a number.
pub open spec fn reset_epoch_of_header(h: Option<Seq<char>>) -> int {
    match h {
        Some(s) => match parse_i64_spec(s) {
            Some(v) => v as int,
            None => 0,
        },
        None => 0,
    }
}

/// The same epoch seconds held to the range that a calendar timestamp with a
/// four-digit year can carry.
pub open spec fn clamped_reset_epoch(h: Option<Seq<char>>) -> int {
    let raw = reset_epoch_of_header(h);
    if raw < 0 {
        0
    } else if raw > MAX_EPOCH_SECONDS {
        MAX_EPOCH_SECONDS as int
    } else {
        raw
    }
}

/// The moment a 429 response says the rate limit resets: the
/// `Ratelimit-Reset` header's epoch seconds as a civil timestamp, epoch zero
/// when the header is absent or not a number.
pub fn rate_limit_reset(header: Option<&str>) -> (t: Timestamp)
    ensures
        t == civil_of_epoch(
            clamped_reset_epoch(
                match header {
                    Some(h) => Some(h@),
                    None => None,
                },
            ) as i64,
        ),
        t.wf(),
{
    let raw: i64 = match header {
        Some(h) => {
            let chars: Vec<char> = str_to_chars(h);
            match parse_i64(chars.as_slice()) {
                Some(v) => v,
                None => 0,
            }
        },
        None => 0,
    };
    let clamped: i64 = if raw < 0 {
        0
    } else if raw > MAX_EPOCH_SECONDS {
        MAX_EPOCH_SECONDS
    } else {
        raw
    };
    from_epoch_seconds(clamped)
}

/// What classification must return for a non-success response: rate-limit
/// for a 429 with a decodable error body, an API error for any other status
/// with a decodable error body, and a client error when the body is no
/// WaniKani error envelope.
pub open spec fn classified(
    status: u16,
    body: Option<JsonV>,
    reset_header: Option<Seq<char>>,
    e: Error,
) -> bool {
    match body {
        Some(j) => match wanikani_error_of_json(j) {
            Some(we) => if status == 429 {
                e matches Error::RateLimit { error, reset_time } && error.deep() == we
                    && reset_time == civil_of_epoch(clamped_reset_epoch(reset_header) as i64)
            } else {
                e matches Error::WaniKaniError(error) && error.deep() == we
            },
            None => e is Client,
        },
        None => e is Client,
    }
}

/// Classifies a non-success response from its status code, its body (`None`
/// when the body was not JSON at all) and its `Ratelimit-Reset` header.
/// Classification itself never fails.
pub fn classify_error(status: u16, body: Option<&JsonValue>, reset_header: Option<&str>) -> (e:
    Error)
    ensures
        classified(
            status,
            match body {
                Some(j) => Some(j.deep()),
                None => None,
            },
            match reset_header {
                Some(h) => Some(h@),
                None => None,
            },
            e,
        ),
{
    match body {
        Some(j) => match decode_wanikani_error(j) {
            Ok(we) => {
                if status == 429 {
                    let reset_time = rate_limit_reset(reset_header);
                    Error::RateLimit { error: we, reset_time }
                } else {
                    Error::WaniKaniError(we)
                }
            },
            Err(_) => Error::Client(String::from_str(
                "the response body is not a WaniKani error envelope",
            )),
        },
        None => Error::Client(String::from_str("the response body is not JSON")),
    }
}

} // verus!
