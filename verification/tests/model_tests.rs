//! Tests of the resource codecs: writing a value and reading it back, the
//! envelope shapes, and the untagged subject decoding.

use wanikani_api::assignment::{Assignment, AssignmentStart};
use wanikani_api::json::{JsonValue, JsonNum};
use wanikani_api::level_progression::LevelProgression;
use wanikani_api::reset::Reset;
use wanikani_api::resource::{
    decode_collection, decode_resource, encode_collection, encode_resource, Collection, Pages,
    Resource, ResourceCommon, ResourceType,
};
use wanikani_api::review_statistic::ReviewStatistic;
use wanikani_api::study_material::{CreateStudyMaterial, StudyMaterial, UpdateStudyMaterial};
use wanikani_api::subject::{
    AuxilliaryMeaning, CharacterImage, ContextSentence, ImageMetadata, KanaVocabulary, Kanji,
    KanjiReading, KanjiReadingType, Meaning, MeaningType, Radical, Subject, SubjectCommon,
    SubjectType, VocabularyReading, Vocabulary,
};
use wanikani_api::summary::{ReviewLessonSummary, Summary, SummaryData};
use wanikani_api::timestamp::Timestamp;
use wanikani_api::user::{
    LessonPresentationOrder, Preferences, Subscription, SubscriptionType, UpdatePreferences,
    UpdateUser, User, UserData,
};
use wanikani_api::voice_actor::{Gender, VoiceActor};

fn ts(year: u16, month: u8, day: u8, hour: u8, minute: u8, second: u8, nanos: u32) -> Timestamp {
    Timestamp { year, month, day, hour, minute, second, nanos }
}

fn obj(j: &JsonValue) -> &Vec<(String, JsonValue)> {
    match j {
        JsonValue::Object(f) => f,
        other => panic!("expected an object, got {:?}", other),
    }
}

fn field<'a>(j: &'a JsonValue, key: &str) -> &'a JsonValue {
    for (k, v) in obj(j) {
        if k == key {
            return v;
        }
    }
    panic!("no member named {key}");
}

#[test]
fn test_serialize_assignment() {
    let data = Assignment {
        available_at: Some(ts(2018, 2, 27, 0, 0, 0, 0)),
        burned_at: None,
        created_at: ts(2017, 9, 5, 23, 38, 10, 695133000),
        hidden: true,
        passed_at: Some(ts(2017, 9, 7, 17, 14, 14, 491889000)),
        resurrected_at: None,
        srs_stage: 2,
        started_at: Some(ts(2017, 9, 5, 23, 41, 28, 980679000)),
        subject_id: 6969,
        subject_type: SubjectType::KanaVocabulary,
        unlocked_at: None,
    };
    let common = ResourceCommon {
        data_updated_at: None,
        object: ResourceType::Assignment,
        url: "https://some.url/assignment".to_string(),
    };
    let assignment = Resource { common, data, id: 69420 };

    let json = encode_resource(&assignment);
    let new_assignment: Resource<Assignment> = decode_resource(&json).expect("Deserialize");
    assert_eq!(assignment, new_assignment);
}

#[test]
fn test_deserialize_assignment() {
    let data = Assignment {
        available_at: Some(ts(2018, 2, 27, 0, 0, 0, 0)),
        burned_at: None,
        created_at: ts(2017, 9, 5, 23, 38, 10, 695133000),
        hidden: false,
        passed_at: Some(ts(2017, 9, 7, 17, 14, 14, 491889000)),
        resurrected_at: None,
        srs_stage: 8,
        started_at: Some(ts(2017, 9, 5, 23, 41, 28, 980679000)),
        subject_id: 8761,
        subject_type: SubjectType::Radical,
        unlocked_at: Some(ts(2017, 9, 5, 23, 38, 10, 695133000)),
    };
    let common = ResourceCommon {
        object: ResourceType::Assignment,
        url: "https://api.wanikani.com/v2/assignments/80463006".to_string(),
        data_updated_at: Some(ts(2017, 10, 30, 1, 51, 10, 438432000)),
    };
    let json = encode_resource(&Resource { common, data, id: 80463006 });

    let assignment: Resource<Assignment> = decode_resource(&json).expect("Deserialize");
    assert_eq!(assignment.id, 80463006);
    assert_eq!(assignment.common.object, ResourceType::Assignment);
    assert_eq!(assignment.common.url, "https://api.wanikani.com/v2/assignments/80463006");
    assert_eq!(
        assignment.common.data_updated_at.expect("Timestamp"),
        ts(2017, 10, 30, 1, 51, 10, 438432000)
    );
    assert_eq!(assignment.data.subject_id, 8761);
    assert_eq!(assignment.data.subject_type, SubjectType::Radical);
    assert_eq!(assignment.data.srs_stage, 8);
    assert!(assignment.data.burned_at.is_none());
    assert!(assignment.data.resurrected_at.is_none());
    assert!(!assignment.data.hidden);
}

#[test]
fn test_assignment_start_omits_unset_timestamp() {
    let unset = AssignmentStart { started_at: None };
    assert_eq!(obj(&unset.encode()).len(), 0);
    let set = AssignmentStart { started_at: Some(ts(2023, 5, 1, 9, 0, 0, 0)) };
    let body = set.encode();
    assert_eq!(obj(&body).len(), 1);
    assert_eq!(
        field(&body, "started_at"),
        &JsonValue::Str("2023-05-01T09:00:00+00:00".to_string())
    );
}

#[test]
fn test_level_progression_serialize() {
    let data = LevelProgression {
        abandoned_at: Some(ts(2017, 12, 20, 0, 3, 56, 642838000)),
        completed_at: None,
        created_at: ts(2017, 3, 30, 8, 21, 51, 439918000),
        level: 69,
        passed_at: Some(ts(2017, 3, 30, 11, 31, 20, 438432000)),
        started_at: None,
        unlocked_at: Some(ts(2017, 3, 30, 8, 21, 51, 439918000)),
    };
    let common = ResourceCommon {
        data_updated_at: Some(ts(2017, 3, 30, 11, 31, 20, 438432000)),
        object: ResourceType::LevelProgression,
        url: "https://api.wanikani.com/v2/level_progressions/69420".to_string(),
    };
    let level_progression = Resource { id: 69420, common, data };
    let json = encode_resource(&level_progression);
    let new_prog: Resource<LevelProgression> = decode_resource(&json).expect("Deserialize");
    assert_eq!(new_prog, level_progression);
}

#[test]
fn test_level_progression_deserialize() {
    let data = LevelProgression {
        abandoned_at: None,
        completed_at: None,
        created_at: ts(2017, 3, 30, 8, 21, 51, 439918000),
        level: 42,
        passed_at: None,
        started_at: Some(ts(2017, 3, 30, 11, 31, 20, 438432000)),
        unlocked_at: Some(ts(2017, 3, 30, 8, 21, 51, 439918000)),
    };
    let common = ResourceCommon {
        object: ResourceType::LevelProgression,
        url: "https://api.wanikani.com/v2/level_progressions/49392".to_string(),
        data_updated_at: Some(ts(2017, 3, 30, 11, 31, 20, 438432000)),
    };
    let json = encode_resource(&Resource { id: 49392, common, data });
    let level_progression: Resource<LevelProgression> =
        decode_resource(&json).expect("Deserialize");
    assert_eq!(level_progression.id, 49392);
    assert_eq!(level_progression.data.level, 42);
    assert!(level_progression.data.passed_at.is_none());
    assert!(level_progression.data.completed_at.is_none());
    assert!(level_progression.data.abandoned_at.is_none());
}

#[test]
fn test_serialize_reset() {
    let data = Reset {
        created_at: ts(2017, 12, 20, 0, 3, 56, 642838000),
        confirmed_at: Some(ts(2017, 12, 19, 23, 31, 18, 77268000)),
        original_level: 60,
        target_level: 4,
    };
    let common = ResourceCommon {
        data_updated_at: Some(ts(2017, 12, 20, 0, 24, 47, 48380000)),
        object: ResourceType::Reset,
        url: "http://some.url/reset".to_string(),
    };
    let reset = Resource { common, data, id: 69420 };
    let json = encode_resource(&reset);
    let new_reset: Resource<Reset> = decode_resource(&json).expect("Deserialize");
    assert_eq!(reset, new_reset);
}

#[test]
fn test_deserialize_reset() {
    let data = Reset {
        confirmed_at: Some(ts(2017, 12, 19, 23, 31, 18, 77268000)),
        created_at: ts(2017, 12, 20, 0, 3, 56, 642838000),
        original_level: 42,
        target_level: 8,
    };
    let common = ResourceCommon {
        object: ResourceType::Reset,
        url: "https://api.wanikani.com/v2/resets/80463006".to_string(),
        data_updated_at: Some(ts(2017, 12, 20, 0, 24, 47, 48380000)),
    };
    let json = encode_resource(&Resource { common, data, id: 234 });
    let reset: Resource<Reset> = decode_resource(&json).expect("Deserialize");
    assert_eq!(reset.id, 234);
    assert_eq!(reset.data.original_level, 42);
    assert_eq!(reset.data.target_level, 8);
    assert_eq!(reset.data.confirmed_at.expect("Timestamp"), ts(2017, 12, 19, 23, 31, 18, 77268000));
}

#[test]
fn test_serialize_review_statistic() {
    let data = ReviewStatistic {
        created_at: ts(2017, 9, 5, 23, 38, 10, 964821000),
        hidden: true,
        meaning_correct: 5,
        meaning_current_streak: 3,
        meaning_incorrect: 2,
        meaning_max_streak: 3,
        percentage_correct: 65,
        reading_correct: 8,
        reading_current_streak: 8,
        reading_incorrect: 0,
        reading_max_streak: 8,
        subject_id: 69420,
        subject_type: SubjectType::KanaVocabulary,
    };
    let common = ResourceCommon {
        data_updated_at: Some(ts(2018, 4, 3, 11, 50, 31, 558505000)),
        object: ResourceType::ReviewStatistic,
        url: "https://some.url/5555".to_string(),
    };
    let stat = Resource { common, data, id: 69420 };
    let json = encode_resource(&stat);
    let new_stat: Resource<ReviewStatistic> = decode_resource(&json).expect("Deserialize");
    assert_eq!(stat, new_stat);
}

#[test]
fn test_deserialize_review_statistic() {
    let expected_stat = Resource {
        id: 80461982,
        common: ResourceCommon {
            object: ResourceType::ReviewStatistic,
            url: "https://api.wanikani.com/v2/review_statistics/80461982".to_string(),
            data_updated_at: Some(ts(2018, 4, 3, 11, 50, 31, 558505000)),
        },
        data: ReviewStatistic {
            created_at: ts(2017, 9, 5, 23, 38, 10, 964821000),
            subject_id: 8761,
            subject_type: SubjectType::Radical,
            meaning_correct: 8,
            meaning_incorrect: 0,
            meaning_max_streak: 8,
            meaning_current_streak: 8,
            reading_correct: 0,
            reading_incorrect: 0,
            reading_current_streak: 0,
            reading_max_streak: 0,
            percentage_correct: 100,
            hidden: false,
        },
    };
    let json = encode_resource(&expected_stat);
    let stat: Resource<ReviewStatistic> = decode_resource(&json).expect("Deserialize");
    assert_eq!(stat, expected_stat);
}

#[test]
fn test_serialize_study_material() {
    let data = StudyMaterial {
        created_at: ts(2017, 9, 30, 1, 42, 13, 453291000),
        hidden: false,
        meaning_note: Some("Meaning".to_string()),
        meaning_synonyms: vec![],
        reading_note: Some("reading".to_string()),
        subject_id: 69,
        subject_type: SubjectType::KanaVocabulary,
    };
    let common = ResourceCommon {
        data_updated_at: Some(ts(2017, 9, 30, 1, 42, 13, 453291000)),
        object: ResourceType::StudyMaterial,
        url: "https://some.url/study_material".to_string(),
    };
    let study_mat = Resource { common, data, id: 696969 };
    let json = encode_resource(&study_mat);
    let new_study: Resource<StudyMaterial> = decode_resource(&json).expect("Deserialize");
    assert_eq!(study_mat, new_study);
}

#[test]
fn test_deserialize_study_material() {
    let data = StudyMaterial {
        created_at: ts(2017, 9, 30, 1, 42, 13, 453291000),
        hidden: false,
        meaning_note: Some("I like turtles".to_string()),
        meaning_synonyms: vec!["burn".to_string(), "sizzle".to_string()],
        reading_note: Some("I like turtles too".to_string()),
        subject_id: 241,
        subject_type: SubjectType::Radical,
    };
    let common = ResourceCommon {
        object: ResourceType::StudyMaterial,
        url: "https://api.wanikani.com/v2/study_materials/65231".to_string(),
        data_updated_at: Some(ts(2017, 9, 30, 1, 42, 13, 453291000)),
    };
    let json = encode_resource(&Resource { common, data, id: 65231 });
    let study_mat: Resource<StudyMaterial> = decode_resource(&json).expect("Deserialize");
    assert_eq!(study_mat.id, 65231);
    assert_eq!(study_mat.data.subject_id, 241);
    assert_eq!(study_mat.data.subject_type, SubjectType::Radical);
    assert_eq!(study_mat.data.meaning_note.as_deref(), Some("I like turtles"));
    assert_eq!(study_mat.data.meaning_synonyms, ["burn", "sizzle"]);
    assert!(!study_mat.data.hidden);
}

#[test]
fn test_serialize_create_study_material() {
    let create = CreateStudyMaterial {
        subject_id: 444,
        meaning_note: Some("Meaning".to_string()),
        reading_note: None,
        meaning_synonyms: None,
    };
    let json = create.encode();
    // the single wrapper key, with only the set fields inside
    let outer = obj(&json);
    assert_eq!(outer.len(), 1);
    assert_eq!(outer[0].0, "study_material");
    let inner = obj(&outer[0].1);
    assert_eq!(inner.len(), 2);
    assert_eq!(inner[0].0, "subject_id");
    assert_eq!(inner[0].1, JsonValue::Num(JsonNum { neg: false, mag: 444 }));
    assert_eq!(inner[1].0, "meaning_note");
    assert_eq!(inner[1].1, JsonValue::Str("Meaning".to_string()));
}

#[test]
fn test_serialize_update_study_material() {
    let update = UpdateStudyMaterial {
        meaning_note: Some("Meaning".to_string()),
        reading_note: None,
        meaning_synonyms: None,
    };
    let json = update.encode();
    let outer = obj(&json);
    assert_eq!(outer.len(), 1);
    assert_eq!(outer[0].0, "study_material");
    let inner = obj(&outer[0].1);
    assert_eq!(inner.len(), 1);
    assert_eq!(inner[0].0, "meaning_note");
    assert_eq!(inner[0].1, JsonValue::Str("Meaning".to_string()));
}

#[test]
fn test_update_preferences_single_field() {
    let preferences = UpdatePreferences {
        lessons_batch_size: Some(10),
        ..UpdatePreferences::new()
    };
    let update = UpdateUser { preferences };
    let body = update.encode();
    let outer = obj(&body);
    assert_eq!(outer.len(), 1);
    assert_eq!(outer[0].0, "preferences");
    let inner = obj(&outer[0].1);
    assert_eq!(inner.len(), 1);
    assert_eq!(inner[0].0, "lessons_batch_size");
    assert_eq!(inner[0].1, JsonValue::Num(JsonNum { neg: false, mag: 10 }));
}

#[test]
fn test_voice_actor_serialize() {
    let data = VoiceActor {
        created_at: ts(2018, 9, 11, 18, 30, 27, 96474000),
        description: "Some test actor".to_string(),
        gender: Gender::Male,
        name: "Test Actor".to_string(),
    };
    let common = ResourceCommon {
        data_updated_at: Some(ts(2023, 6, 15, 19, 15, 46, 20703000)),
        url: "https://api.wanikani.com/v2/voice_actors/69".to_string(),
        object: ResourceType::VoiceActor,
    };
    let vo = Resource { id: 69, common, data };
    let json = encode_resource(&vo);
    let new_vo: Resource<VoiceActor> = decode_resource(&json).expect("Deserialize");
    assert_eq!(new_vo, vo);
}

#[test]
fn test_voice_actor_deserialize() {
    let kyoko = Resource {
        id: 1,
        common: ResourceCommon {
            object: ResourceType::VoiceActor,
            url: "https://api.wanikani.com/v2/voice_actors/1".to_string(),
            data_updated_at: Some(ts(2023, 6, 15, 19, 15, 46, 20703000)),
        },
        data: VoiceActor {
            created_at: ts(2018, 9, 11, 18, 30, 27, 96474000),
            name: "Kyoko".to_string(),
            gender: Gender::Female,
            description: "Tokyo accent".to_string(),
        },
    };
    let kenichi = Resource {
        id: 2,
        common: ResourceCommon {
            object: ResourceType::VoiceActor,
            url: "https://api.wanikani.com/v2/voice_actors/2".to_string(),
            data_updated_at: Some(ts(2023, 6, 15, 19, 15, 45, 983401000)),
        },
        data: VoiceActor {
            created_at: ts(2018, 9, 11, 18, 30, 28, 89969000),
            name: "Kenichi".to_string(),
            gender: Gender::Male,
            description: "Tokyo accent".to_string(),
        },
    };
    let collection = Collection {
        common: ResourceCommon {
            object: ResourceType::Collection,
            url: "https://api.wanikani.com/v2/voice_actors".to_string(),
            data_updated_at: Some(ts(2023, 6, 15, 19, 15, 46, 20703000)),
        },
        pages: Pages { per_page: 500, next_url: None, previous_url: None },
        total_count: 2,
        data: vec![kyoko.clone(), kenichi.clone()],
    };
    let json = encode_collection(&collection);
    let decoded: Collection<VoiceActor> = decode_collection(&json).expect("Deserialize");
    assert_eq!(decoded.common.object, ResourceType::Collection);
    assert_eq!(decoded.common.url, "https://api.wanikani.com/v2/voice_actors");
    assert_eq!(decoded.pages, Pages { per_page: 500, next_url: None, previous_url: None });
    assert_eq!(decoded.total_count, 2);
    assert_eq!(decoded.data.len(), 2);
    assert_eq!(decoded.data[0], kyoko);
    assert_eq!(decoded.data[1], kenichi);
}

#[test]
fn test_summary_serialize() {
    let timestamp = ts(2023, 1, 1, 0, 0, 0, 0);
    let summary = Summary {
        common: ResourceCommon {
            object: ResourceType::Report,
            data_updated_at: Some(timestamp),
            url: "http://some.url/".to_string(),
        },
        data: SummaryData {
            next_reviews_at: None,
            lessons: vec![ReviewLessonSummary {
                available_at: timestamp,
                subject_ids: vec![1, 2, 3],
            }],
            reviews: vec![],
        },
    };
    let json = summary.encode();
    let new_summary = Summary::decode(&json).expect("Deserialize");
    assert_eq!(new_summary, summary);
}

#[test]
fn test_summary_deserialize() {
    let expected_timestamp = ts(2018, 4, 11, 21, 0, 0, 0);
    let summary = Summary {
        common: ResourceCommon {
            object: ResourceType::Report,
            url: "https://api.wanikani.com/v2/summary".to_string(),
            data_updated_at: Some(expected_timestamp),
        },
        data: SummaryData {
            next_reviews_at: Some(expected_timestamp),
            lessons: vec![ReviewLessonSummary {
                available_at: expected_timestamp,
                subject_ids: vec![25, 26],
            }],
            reviews: vec![
                ReviewLessonSummary {
                    available_at: expected_timestamp,
                    subject_ids: vec![21, 23, 24],
                },
                ReviewLessonSummary {
                    available_at: ts(2018, 4, 11, 22, 0, 0, 0),
                    subject_ids: vec![],
                },
            ],
        },
    };
    let json = summary.encode();
    let decoded = Summary::decode(&json).expect("Deserialize");
    assert_eq!(decoded.common.object, ResourceType::Report);
    assert_eq!(decoded.data.next_reviews_at.expect("Timestamp"), expected_timestamp);
    assert_eq!(decoded.data.lessons.len(), 1);
    assert_eq!(decoded.data.lessons[0].subject_ids, [25, 26]);
    assert_eq!(decoded.data.reviews.len(), 2);
    assert_eq!(decoded.data.reviews[0].subject_ids, [21, 23, 24]);
    assert!(decoded.data.reviews[1].subject_ids.is_empty());
}

fn ground_common() -> SubjectCommon {
    SubjectCommon {
        auxiliary_meanings: vec![AuxilliaryMeaning {
            meaning: "ground".to_string(),
            meaning_type: MeaningType::Blacklist,
        }],
        created_at: ts(2012, 2, 27, 18, 8, 16, 0),
        document_url: "https://www.wanikani.com/radicals/ground".to_string(),
        hidden_at: None,
        lesson_position: 1,
        level: 1,
        meaning_mnemonic: "This radical consists of a single, horizontal stroke.".to_string(),
        meanings: vec![Meaning {
            meaning: "Ground".to_string(),
            primary: true,
            accepted_answer: true,
        }],
        slug: "ground".to_string(),
        spaced_repetition_system_id: 2,
    }
}

fn ground_radical() -> Radical {
    Radical {
        common: ground_common(),
        amalgamation_subject_ids: vec![5, 4, 98],
        characters: Some("一".to_string()),
        character_images: vec![CharacterImage {
            url: "https://cdn.wanikani.com/images/legacy/576-subject-1.svg".to_string(),
            content_type: "image/svg+xml".to_string(),
            metadata: ImageMetadata::SVG { inline_styles: false },
        }],
    }
}

fn one_kanji() -> Kanji {
    Kanji {
        common: SubjectCommon {
            auxiliary_meanings: vec![
                AuxilliaryMeaning {
                    meaning: "one".to_string(),
                    meaning_type: MeaningType::Blacklist,
                },
                AuxilliaryMeaning {
                    meaning: "flat".to_string(),
                    meaning_type: MeaningType::Whitelist,
                },
            ],
            created_at: ts(2012, 2, 27, 19, 55, 19, 0),
            document_url: "https://www.wanikani.com/kanji/%E4%B8%80".to_string(),
            hidden_at: None,
            lesson_position: 2,
            level: 1,
            meaning_mnemonic: "Lying on the ground is the number One.".to_string(),
            meanings: vec![Meaning {
                meaning: "One".to_string(),
                primary: true,
                accepted_answer: true,
            }],
            slug: "一".to_string(),
            spaced_repetition_system_id: 1,
        },
        amalgamation_subject_ids: vec![56, 88, 91],
        characters: "一".to_string(),
        component_subject_ids: vec![1],
        meaning_hint: Some("Imagine yourself there at the scene of the crime.".to_string()),
        reading_hint: Some("It climbs from your hands.".to_string()),
        reading_mnemonic: "A fine powder causes the person it touches to get itchy.".to_string(),
        readings: vec![
            KanjiReading {
                reading_type: KanjiReadingType::Onyomi,
                primary: true,
                accepted_answer: true,
                reading: "いち".to_string(),
            },
            KanjiReading {
                reading_type: KanjiReadingType::Kunyomi,
                primary: false,
                accepted_answer: false,
                reading: "ひと".to_string(),
            },
            KanjiReading {
                reading_type: KanjiReadingType::Nanori,
                primary: false,
                accepted_answer: false,
                reading: "かず".to_string(),
            },
        ],
        visually_similar_subject_ids: vec![],
    }
}

#[test]
fn test_radical_serialize() {
    let radical = Resource {
        common: ResourceCommon {
            data_updated_at: Some(ts(2018, 3, 29, 23, 13, 14, 64836000)),
            object: ResourceType::Radical,
            url: "https://api.wanikani.com/v2/subjects/1".to_string(),
        },
        data: ground_radical(),
        id: 1,
    };
    let json = encode_resource(&radical);
    let subject: Resource<Subject> = decode_resource(&json).expect("Deserialize");
    assert_eq!(subject.common, radical.common);
    assert_eq!(subject.id, radical.id);
    let Subject::Radical(subject_inner) = subject.data else {
        panic!("Incorrect subject type");
    };
    assert_eq!(subject_inner, radical.data);
}

#[test]
fn test_radical_deserialize() {
    let radical = Resource {
        common: ResourceCommon {
            data_updated_at: Some(ts(2018, 3, 29, 23, 13, 14, 64836000)),
            object: ResourceType::Radical,
            url: "https://api.wanikani.com/v2/subjects/1".to_string(),
        },
        data: ground_radical(),
        id: 1,
    };
    let json = encode_resource(&radical);

    // the generic and the concrete decode of the same body agree
    let subject: Resource<Subject> = decode_resource(&json).expect("Deserialize subject");
    let concrete: Resource<Radical> = decode_resource(&json).expect("Deserialize radical");
    assert_eq!(concrete.id, subject.id);
    assert_eq!(concrete.common, subject.common);
    let Subject::Radical(subject_inner) = subject.data else {
        panic!("Incorrect subject type");
    };
    assert_eq!(concrete.data, subject_inner);
    assert_eq!(concrete.data.amalgamation_subject_ids, [5, 4, 98]);
    assert_eq!(concrete.data.characters.as_deref(), Some("一"));
    assert_eq!(concrete.data.common.slug, "ground");
    assert_eq!(concrete.data.common.spaced_repetition_system_id, 2);

    // a mismatched concrete type is a decode error, not silently-wrong data
    assert!(decode_resource::<Kanji>(&json).is_err());
}

#[test]
fn test_kanji_serialize() {
    let kanji = Resource {
        common: ResourceCommon {
            data_updated_at: Some(ts(2018, 3, 29, 23, 14, 30, 805034000)),
            object: ResourceType::Kanji,
            url: "https://api.wanikani.com/v2/subjects/440".to_string(),
        },
        data: one_kanji(),
        id: 440,
    };
    let json = encode_resource(&kanji);
    let subject: Resource<Subject> = decode_resource(&json).expect("Deserialize");
    assert_eq!(subject.common, kanji.common);
    assert_eq!(subject.id, kanji.id);
    let Subject::Kanji(subject_inner) = subject.data else {
        panic!("Incorrect subject type");
    };
    assert_eq!(subject_inner, kanji.data);
}

#[test]
fn test_kanji_deserialize() {
    let kanji = Resource {
        common: ResourceCommon {
            data_updated_at: Some(ts(2018, 3, 29, 23, 14, 30, 805034000)),
            object: ResourceType::Kanji,
            url: "https://api.wanikani.com/v2/subjects/440".to_string(),
        },
        data: one_kanji(),
        id: 440,
    };
    let json = encode_resource(&kanji);
    let subject: Resource<Subject> = decode_resource(&json).expect("Deserialize subject");
    let concrete: Resource<Kanji> = decode_resource(&json).expect("Deserialize kanji");
    assert_eq!(concrete.id, 440);
    assert_eq!(concrete.common, subject.common);
    let Subject::Kanji(subject_inner) = subject.data else {
        panic!("Incorrect subject type");
    };
    assert_eq!(concrete.data, subject_inner);
    assert_eq!(concrete.data.component_subject_ids, [1]);
    assert_eq!(concrete.data.readings.len(), 3);
    assert_eq!(concrete.data.readings[0].reading, "いち");
    assert!(concrete.data.visually_similar_subject_ids.is_empty());

    // requesting the wrong concrete type fails to decode
    assert!(decode_resource::<Radical>(&json).is_err());
}

#[test]
fn test_vocab_serialize() {
    let vocab = Resource {
        common: ResourceCommon {
            data_updated_at: Some(ts(2018, 12, 12, 23, 9, 52, 234049000)),
            object: ResourceType::Vocabulary,
            url: "https://api.wanikani.com/v2/subjects/2467".to_string(),
        },
        data: Vocabulary {
            common: SubjectCommon {
                auxiliary_meanings: vec![AuxilliaryMeaning {
                    meaning: "1".to_string(),
                    meaning_type: MeaningType::Whitelist,
                }],
                created_at: ts(2012, 2, 28, 8, 4, 47, 0),
                document_url: "https://www.wanikani.com/vocabulary/%E4%B8%80".to_string(),
                hidden_at: None,
                lesson_position: 44,
                level: 1,
                meaning_mnemonic: "This vocab word has the same meaning as the kanji.".to_string(),
                meanings: vec![Meaning {
                    meaning: "One".to_string(),
                    primary: true,
                    accepted_answer: true,
                }],
                slug: "一".to_string(),
                spaced_repetition_system_id: 1,
            },
            characters: "一".to_string(),
            component_subject_ids: vec![440],
            context_sentences: vec![ContextSentence {
                en: "Let’s meet up once.".to_string(),
                ja: "一ど、あいましょう。".to_string(),
            }],
            parts_of_speech: vec!["numeral".to_string()],
            pronunciation_audios: vec![],
            readings: vec![VocabularyReading {
                accepted_answer: true,
                primary: true,
                reading: "いち".to_string(),
            }],
            reading_mnemonic: "When a number is all alone it uses the on'yomi reading.".to_string(),
        },
        id: 2467,
    };
    let json = encode_resource(&vocab);
    let subject: Resource<Subject> = decode_resource(&json).expect("Deserialize");
    assert_eq!(subject.id, vocab.id);
    assert_eq!(subject.common, vocab.common);
    let Subject::Vocabulary(subject_inner) = subject.data else {
        panic!("Incorrect subject type");
    };
    assert_eq!(subject_inner, vocab.data);
    assert!(decode_resource::<Radical>(&json).is_err());
    assert!(decode_resource::<Kanji>(&json).is_err());
}

#[test]
fn test_kana_serialize() {
    let vocab = Resource {
        common: ResourceCommon {
            data_updated_at: Some(ts(2023, 5, 3, 13, 1, 51, 333012000)),
            object: ResourceType::KanaVocabulary,
            url: "https://api.wanikani.com/v2/subjects/9210".to_string(),
        },
        data: KanaVocabulary {
            common: SubjectCommon {
                auxiliary_meanings: vec![],
                created_at: ts(2023, 4, 24, 23, 52, 43, 457614000),
                document_url: "https://www.wanikani.com/vocabulary/おやつ".to_string(),
                hidden_at: None,
                lesson_position: 0,
                level: 8,
                meaning_mnemonic: "Oh yah! Two snacks, just for you.".to_string(),
                meanings: vec![Meaning {
                    accepted_answer: true,
                    primary: true,
                    meaning: "Snack".to_string(),
                }],
                slug: "おやつ".to_string(),
                spaced_repetition_system_id: 1,
            },
            characters: "おやつ".to_string(),
            context_sentences: vec![ContextSentence {
                en: "Today I had a muffin for a snack.".to_string(),
                ja: "今日はおやつにマフィンを食べた。".to_string(),
            }],
            parts_of_speech: vec!["noun".to_string()],
            pronunciation_audios: vec![],
        },
        id: 9210,
    };
    let json = encode_resource(&vocab);
    let subject: Resource<Subject> = decode_resource(&json).expect("Deserialize");
    assert_eq!(subject.id, vocab.id);
    assert_eq!(subject.common, vocab.common);
    let Subject::KanaVocabulary(subject_inner) = subject.data else {
        panic!("Incorrect subject type");
    };
    assert_eq!(subject_inner, vocab.data);
    assert!(decode_resource::<Vocabulary>(&json).is_err());
}

#[test]
fn test_wanikani_error_round_trip() {
    let e = wanikani_api::error::WanikaniError {
        code: 429,
        error: Some("Rate limit exceeded".to_string()),
    };
    let json = wanikani_api::error::encode_wanikani_error(&e);
    let back = wanikani_api::error::decode_wanikani_error(&json).expect("Deserialize");
    assert_eq!(back, e);
    assert!(wanikani_api::error::decode_wanikani_error(&JsonValue::Null).is_err());
}

#[test]
fn test_user_serialize() {
    let preferences = Preferences {
        default_voice_actor_id: 1,
        extra_study_autoplay_audio: true,
        lessons_autoplay_audio: true,
        lessons_batch_size: 5,
        lessons_presentation_order: LessonPresentationOrder::Shuffled,
        reviews_autoplay_audio: true,
        reviews_display_srs_indicator: true,
    };
    let subscription = Subscription {
        active: true,
        sub_type: SubscriptionType::Lifetime,
        max_level_granted: 60,
        period_ends_at: None,
    };
    let data = UserData {
        id: "00000000-0000-0000-0000-000000000000".to_string(),
        username: "my_test_user".to_string(),
        level: 8,
        profile_url: "https://www.wanikani.com/users/my_test_user".to_string(),
        started_at: ts(2012, 5, 11, 0, 52, 18, 958466000),
        current_vacation_started_at: None,
        subscription,
        preferences,
    };
    let common = ResourceCommon {
        object: ResourceType::User,
        url: "https://api.wanikani.com/v2/user".to_string(),
        data_updated_at: Some(ts(2018, 4, 6, 14, 26, 53, 22245000)),
    };
    let user = User { common, data };
    let json = user.encode();
    let new_user = User::decode(&json).expect("Deserialize correctly");
    assert_eq!(new_user, user);
}

#[test]
fn test_user_deserialize() {
    let user = User {
        common: ResourceCommon {
            object: ResourceType::User,
            url: "https://api.wanikani.com/v2/user".to_string(),
            data_updated_at: Some(ts(2018, 4, 6, 14, 26, 53, 22245000)),
        },
        data: UserData {
            id: "5a6a5234-a392-4a87-8f3f-33342afe8a42".to_string(),
            username: "example_user".to_string(),
            level: 5,
            profile_url: "https://www.wanikani.com/users/example_user".to_string(),
            started_at: ts(2012, 5, 11, 0, 52, 18, 958466000),
            current_vacation_started_at: None,
            subscription: Subscription {
                active: true,
                sub_type: SubscriptionType::Recurring,
                max_level_granted: 60,
                period_ends_at: Some(ts(2018, 12, 11, 13, 32, 19, 485748000)),
            },
            preferences: Preferences {
                default_voice_actor_id: 1,
                extra_study_autoplay_audio: false,
                lessons_autoplay_audio: false,
                lessons_batch_size: 10,
                lessons_presentation_order: LessonPresentationOrder::AscendingLevelThenSubject,
                reviews_autoplay_audio: false,
                reviews_display_srs_indicator: true,
            },
        },
    };
    let json = user.encode();
    let decoded = User::decode(&json).expect("Deserialize");
    assert_eq!(decoded.common.url, "https://api.wanikani.com/v2/user");
    let data = decoded.data;
    assert_eq!(data.id, "5a6a5234-a392-4a87-8f3f-33342afe8a42");
    assert_eq!(data.username, "example_user");
    assert_eq!(data.level, 5);
    assert!(data.current_vacation_started_at.is_none());
    assert!(data.subscription.active);
    assert_eq!(data.subscription.sub_type, SubscriptionType::Recurring);
    assert_eq!(data.subscription.max_level_granted, 60);
    let prefs = data.preferences;
    assert_eq!(prefs.default_voice_actor_id, 1);
    assert!(!prefs.extra_study_autoplay_audio);
    assert!(!prefs.lessons_autoplay_audio);
    assert_eq!(prefs.lessons_batch_size, 10);
    assert_eq!(
        prefs.lessons_presentation_order,
        LessonPresentationOrder::AscendingLevelThenSubject
    );
    assert!(!prefs.reviews_autoplay_audio);
    assert!(prefs.reviews_display_srs_indicator);
}
