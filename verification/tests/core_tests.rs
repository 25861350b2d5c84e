//! Tests of the request pipeline: query encoding, filter serialization,
//! URL building, header injection, timestamp notation and error
//! classification.

use wanikani_api::client::{
    assignments_url, csv_u64, subjects_url, voice_actors_url, AssignmentFilter, IdFilter,
    PageWalk, ReviewStatisticFilter, StudyMaterialFilter, SubjectFilter,
};
use wanikani_api::error::{classify_error, rate_limit_reset, Error, WanikaniError};
use wanikani_api::json::{JsonNum, JsonValue};
use wanikani_api::num::{i64_to_string, u64_to_string};
use wanikani_api::query::{encode_query, QueryParam};
use wanikani_api::subject::SubjectType;
use core::cmp::Ordering;
use wanikani_api::resource::{Collection, Pages, Resource, ResourceCommon, ResourceType};
use wanikani_api::subject::SubjectCommon;
use wanikani_api::timestamp::{parse_rfc3339_text, Timestamp};
use wanikani_api::user::LessonPresentationOrder;
use wanikani_api::voice_actor::{Gender, VoiceActor};

fn ts(year: u16, month: u8, day: u8, hour: u8, minute: u8, second: u8, nanos: u32) -> Timestamp {
    Timestamp {
        year,
        month,
        day,
        hour,
        minute,
        second,
        nanos,
    }
}

#[test]
fn empty_filters_produce_no_query() {
    let id = IdFilter::new();
    assert_eq!(encode_query(&id.apply_filters()), "");
    let a = AssignmentFilter::new();
    assert_eq!(encode_query(&a.apply_filters()), "");
    let s = SubjectFilter::new();
    assert_eq!(encode_query(&s.apply_filters()), "");
    let m = StudyMaterialFilter::new();
    assert_eq!(encode_query(&m.apply_filters()), "");
    let r = ReviewStatisticFilter::new();
    assert_eq!(encode_query(&r.apply_filters()), "");
    assert_eq!(voice_actors_url(&IdFilter::new()), "https://api.wanikani.com/v2/voice_actors");
}

#[test]
fn list_filter_appears_once_comma_joined() {
    let mut f = IdFilter::new();
    f.ids = Some(vec![8, 16, 64]);
    let params = f.apply_filters();
    assert_eq!(params.len(), 1);
    assert_eq!(params[0].key, "ids");
    assert_eq!(params[0].value.as_deref(), Some("8,16,64"));
    assert_eq!(csv_u64(&vec![8, 16, 64]), "8,16,64");
    assert_eq!(
        encode_query(&params),
        "ids=8%2C16%2C64"
    );
}

#[test]
fn pure_flag_appends_bare_key_only_when_true() {
    let mut f = AssignmentFilter::new();
    f.in_review = true;
    let params = f.apply_filters();
    assert_eq!(params.len(), 1);
    assert_eq!(params[0].key, "in_review");
    assert_eq!(params[0].value, None);
    assert_eq!(encode_query(&params), "in_review");

    let off = AssignmentFilter::new();
    assert!(off.apply_filters().is_empty());
}

#[test]
fn tri_state_booleans_only_when_set() {
    let mut f = AssignmentFilter::new();
    f.burned = Some(true);
    f.hidden = Some(false);
    let params = f.apply_filters();
    assert_eq!(params.len(), 2);
    assert_eq!(params[0].key, "burned");
    assert_eq!(params[0].value.as_deref(), Some("true"));
    assert_eq!(params[1].key, "hidden");
    assert_eq!(params[1].value.as_deref(), Some("false"));
}

#[test]
fn timestamp_filter_uses_rfc3339() {
    let mut f = IdFilter::new();
    f.updated_after = Some(ts(2023, 1, 5, 12, 30, 0, 0));
    let params = f.apply_filters();
    assert_eq!(params[0].key, "updated_after");
    assert_eq!(params[0].value.as_deref(), Some("2023-01-05T12:30:00+00:00"));
    assert_eq!(
        encode_query(&params),
        "updated_after=2023-01-05T12%3A30%3A00%2B00%3A00"
    );
}

#[test]
fn filter_order_matches_insertion() {
    let mut f = SubjectFilter::new();
    f.levels = Some(vec![1, 2]);
    f.types = Some(vec![SubjectType::Radical, SubjectType::Kanji]);
    let params = f.apply_filters();
    assert_eq!(params.len(), 2);
    assert_eq!(params[0].key, "types");
    assert_eq!(params[0].value.as_deref(), Some("radical,kanji"));
    assert_eq!(params[1].key, "levels");
    assert_eq!(params[1].value.as_deref(), Some("1,2"));
    assert_eq!(
        subjects_url(&f),
        "https://api.wanikani.com/v2/subjects?types=radical%2Ckanji&levels=1%2C2"
    );
}

#[test]
fn query_encoding_escapes() {
    let params = vec![QueryParam::pair("slugs", "one two".to_string())];
    assert_eq!(encode_query(&params), "slugs=one+two");
    let params = vec![QueryParam::pair("slugs", "一".to_string())];
    assert_eq!(
        encode_query(&params),
        "slugs=%E4%B8%80"
    );
}

#[test]
fn resource_urls() {
    let mut f = AssignmentFilter::new();
    f.levels = Some(vec![2]);
    assert_eq!(assignments_url(&f), "https://api.wanikani.com/v2/assignments?levels=2");
    assert_eq!(
        wanikani_api::client::assignment_url(80463006),
        "https://api.wanikani.com/v2/assignments/80463006"
    );
    assert_eq!(
        wanikani_api::client::start_assignment_url(5),
        "https://api.wanikani.com/v2/assignments/5/start"
    );
    assert_eq!(wanikani_api::client::summary_url(), "https://api.wanikani.com/v2/summary");
    assert_eq!(wanikani_api::client::user_url(), "https://api.wanikani.com/v2/user");
}

#[test]
fn required_headers_carry_token_and_revision() {
    let headers = wanikani_api::client::required_headers("MY_TOKEN");
    assert_eq!(headers.len(), 2);
    assert_eq!(headers[0].0, "Authorization");
    assert_eq!(headers[0].1, "Bearer MY_TOKEN");
    assert_eq!(headers[1].0, "Wanikani-Revision");
    assert_eq!(headers[1].1, "20170710");
}

fn error_body(code: i32, message: Option<&str>) -> JsonValue {
    wanikani_api::error::encode_wanikani_error(&WanikaniError {
        code,
        error: message.map(|m| m.to_string()),
    })
}

#[test]
fn rate_limit_reset_header_names_the_instant() {
    // epoch second 1500000000 is 2017-07-14T02:40:00Z
    let body = error_body(429, Some("Rate limit exceeded"));
    let e = classify_error(429, Some(&body), Some("1500000000"));
    match e {
        Error::RateLimit { error, reset_time } => {
            assert_eq!(error.code, 429);
            assert_eq!(error.error.as_deref(), Some("Rate limit exceeded"));
            assert_eq!(reset_time, ts(2017, 7, 14, 2, 40, 0, 0));
        }
        other => panic!("expected a rate-limit error, got {:?}", other),
    }
}

#[test]
fn rate_limit_reset_defaults_to_epoch_zero() {
    let body = error_body(429, None);
    let absent = classify_error(429, Some(&body), None);
    match absent {
        Error::RateLimit { reset_time, .. } => {
            assert_eq!(reset_time, ts(1970, 1, 1, 0, 0, 0, 0));
        }
        other => panic!("expected a rate-limit error, got {:?}", other),
    }
    let garbled = classify_error(429, Some(&body), Some("soon"));
    match garbled {
        Error::RateLimit { reset_time, .. } => {
            assert_eq!(reset_time, ts(1970, 1, 1, 0, 0, 0, 0));
        }
        other => panic!("expected a rate-limit error, got {:?}", other),
    }
    assert_eq!(rate_limit_reset(Some("-12")), ts(1970, 1, 1, 0, 0, 0, 0));
}

#[test]
fn non_success_statuses_classify_as_api_errors() {
    let body = error_body(401, Some("Unauthorized. Nice try."));
    match classify_error(401, Some(&body), None) {
        Error::WaniKaniError(e) => {
            assert_eq!(e.code, 401);
            assert_eq!(e.error.as_deref(), Some("Unauthorized. Nice try."));
        }
        other => panic!("expected an API error, got {:?}", other),
    }
    match classify_error(500, Some(&JsonValue::Bool(true)), None) {
        Error::Client(_) => {}
        other => panic!("expected a client error, got {:?}", other),
    }
    match classify_error(502, None, None) {
        Error::Client(_) => {}
        other => panic!("expected a client error, got {:?}", other),
    }
}

#[test]
fn wanikani_error_message() {
    let with = WanikaniError {
        code: 422,
        error: Some("Description of how the request was malformed".to_string()),
    };
    assert_eq!(with.to_string(), "Description of how the request was malformed");
    let without = WanikaniError { code: 429, error: None };
    assert_eq!(without.to_string(), "Error code 429 received");
}

#[test]
fn timestamps_round_trip_through_notation() {
    let t = ts(2018, 3, 29, 23, 13, 14, 64836000);
    let text = t.to_rfc3339();
    assert_eq!(text, "2018-03-29T23:13:14.064836+00:00");
    assert_eq!(parse_rfc3339_text(&text), Some(t));
    assert_eq!(parse_rfc3339_text("2018-03-29T23:13:14.064836Z"), Some(t));
    assert_eq!(
        parse_rfc3339_text("2023-01-01T00:00:00Z"),
        Some(ts(2023, 1, 1, 0, 0, 0, 0))
    );
    assert_eq!(parse_rfc3339_text("2023-02-29T00:00:00Z"), None);
    assert_eq!(parse_rfc3339_text("2024-02-29T00:00:00Z"), Some(ts(2024, 2, 29, 0, 0, 0, 0)));
    assert_eq!(parse_rfc3339_text("2023-01-01T00:00:00+09:00"), None);
    assert_eq!(parse_rfc3339_text("not a timestamp"), None);
}

#[test]
fn decimal_notation() {
    assert_eq!(u64_to_string(0), "0");
    assert_eq!(u64_to_string(80463006), "80463006");
    assert_eq!(i64_to_string(-42), "-42");
    let n = JsonNum::from_i64(-5);
    assert!(n.neg);
    assert_eq!(n.mag, 5);
}

#[test]
fn pagination_walk_concatenates_pages_in_order() {
    let common = ResourceCommon {
        object: ResourceType::Collection,
        url: "https://api.wanikani.com/v2/voice_actors".to_string(),
        data_updated_at: None,
    };
    let actor = |id: u64, name: &str| Resource {
        id,
        common: ResourceCommon {
            object: ResourceType::VoiceActor,
            url: format!("https://api.wanikani.com/v2/voice_actors/{id}"),
            data_updated_at: None,
        },
        data: VoiceActor {
            created_at: ts(2018, 9, 11, 18, 30, 27, 0),
            name: name.to_string(),
            gender: Gender::Female,
            description: "Tokyo accent".to_string(),
        },
    };
    let first = Collection {
        common: common.clone(),
        pages: Pages {
            next_url: Some("https://api.wanikani.com/v2/voice_actors?page_after_id=1".to_string()),
            previous_url: None,
            per_page: 1,
        },
        total_count: 2,
        data: vec![actor(1, "Kyoko")],
    };
    let second = Collection {
        common,
        pages: Pages { next_url: None, previous_url: None, per_page: 1 },
        total_count: 2,
        data: vec![actor(2, "Kenichi")],
    };
    let walk = wanikani_api::client::start_walk(first);
    assert!(!walk.is_complete());
    let walk: PageWalk<VoiceActor> = wanikani_api::client::absorb_page(walk, second);
    assert!(walk.is_complete());
    assert_eq!(walk.items.len(), 2);
    assert_eq!(walk.items.len() as u64, walk.total_count);
    assert_eq!(walk.items[0].id, 1);
    assert_eq!(walk.items[1].id, 2);
}

#[test]
fn lesson_order_compares_subjects() {
    let common = |level: u32, pos: u32| SubjectCommon {
        auxiliary_meanings: vec![],
        created_at: ts(2012, 2, 27, 18, 8, 16, 0),
        document_url: "https://www.wanikani.com/radicals/ground".to_string(),
        hidden_at: None,
        lesson_position: pos,
        level,
        meaning_mnemonic: "m".to_string(),
        meanings: vec![],
        slug: "ground".to_string(),
        spaced_repetition_system_id: 2,
    };
    let by_subject = LessonPresentationOrder::AscendingLevelThenSubject;
    assert_eq!(by_subject.order_subjects(0, 0, &common(1, 5), &common(2, 1)), Ordering::Less);
    assert_eq!(by_subject.order_subjects(9, 1, &common(2, 3), &common(2, 1)), Ordering::Greater);
    let shuffled = LessonPresentationOrder::Shuffled;
    assert_eq!(shuffled.order_subjects(1, 2, &common(9, 9), &common(1, 1)), Ordering::Less);
    let mixed = LessonPresentationOrder::AscendingLevelThenShuffled;
    assert_eq!(mixed.order_subjects(7, 3, &common(1, 1), &common(1, 2)), Ordering::Greater);
}

#[test]
fn subject_type_conversions() {
    assert_eq!(SubjectType::try_from(ResourceType::Kanji), Ok(SubjectType::Kanji));
    let err = SubjectType::try_from(ResourceType::User).unwrap_err();
    assert_eq!(err.to_string(), "user is not a subject type.");
    assert_eq!(SubjectType::KanaVocabulary.to_string(), "kana_vocabulary");
}
