//! Subjects are the radicals, kanji, vocabulary, and kana_vocabulary that
//! are learned through lessons and reviews.  They contain basic dictionary
//! information, such as meanings and/or readings, and information about
//! their relationship to other items with WaniKani, like their level.
//!
//! The wire format of a subject payload carries no discriminant: the four
//! concrete shapes are told apart by which fields are present.  Decoding
//! tries them in a fixed order - radical, kanji, vocabulary, kana
//! vocabulary - and the first shape whose required fields are all present
//! wins.

use vstd::prelude::*;

use crate::codec::{
    DecodeError, v_str, v_u64, v_u32, v_bool, v_opt_str, v_time, get_string, get_u64, get_u32,
    get_bool, get_opt_string, get_time, get_u64_vec, get_string_vec, time_json, opt_str_json,
    arr_u64, arr_strings,
};
use crate::json::{JsonValue, JsonV, obj_get_v, obj_get, push_field, fields_deep};
use crate::resource::{
    ResourceType, JsonPayload, lemma_obj_get_skips, payloads_to_json_v, payloads_of_json_v,
    encode_payload_vec, decode_payload_vec, lemma_payloads_round_trip,
};
use crate::timestamp::{Timestamp, rfc3339, lemma_rfc3339_round_trip};
use crate::voice_actor::{Gender, gender_name, gender_of_name, v_gender, get_gender,
    lemma_gender_name_round_trip};

verus! {

/// Subjects are a subset of resources, learned through lessons and reviews.
#[derive(Debug, Clone, Copy, PartialEq, Eq, PartialOrd, Ord, Structural)]
pub enum SubjectType {
    /// A radical.
    Radical,
    /// A kanji.
    Kanji,
    /// A word with kanji in it.
    Vocabulary,
    /// A word with only kana.
    KanaVocabulary,
}

/// The tag under which a subject type appears on the wire.
pub open spec fn subject_type_name(t: SubjectType) -> Seq<char> {
    match t {
        SubjectType::Radical => "radical"@,
        SubjectType::Kanji => "kanji"@,
        SubjectType::Vocabulary => "vocabulary"@,
        SubjectType::KanaVocabulary => "kana_vocabulary"@,
    }
}

/// The subject type a wire tag names, if any.
pub open spec fn subject_type_of_name(s: Seq<char>) -> Option<SubjectType> {
    if s == "radical"@ {
        Some(SubjectType::Radical)
    } else if s == "kanji"@ {
        Some(SubjectType::Kanji)
    } else if s == "vocabulary"@ {
        Some(SubjectType::Vocabulary)
    } else if s == "kana_vocabulary"@ {
        Some(SubjectType::KanaVocabulary)
    } else {
        None
    }
}

/// Every wire tag names back the subject type it was written for.
pub proof fn lemma_subject_type_name_round_trip(t: SubjectType)
    ensures
        subject_type_of_name(subject_type_name(t)) == Some(t),
{
    reveal_strlit("radical");
    reveal_strlit("kanji");
    reveal_strlit("vocabulary");
    reveal_strlit("kana_vocabulary");
    assert("radical"@.len() == 7);
    assert("kanji"@.len() == 5);
    assert("vocabulary"@.len() == 10);
    assert("kana_vocabulary"@.len() == 15);
}

impl SubjectType {
    /// Writes the wire tag for this subject type.
    pub fn to_string(&self) -> (r: String)
        ensures
            r@ == subject_type_name(*self),
    {
        let name: &str = match self {
            SubjectType::Radical => "radical",
            SubjectType::Kanji => "kanji",
            SubjectType::Vocabulary => "vocabulary",
            SubjectType::KanaVocabulary => "kana_vocabulary",
        };
        name.to_owned()
    }

    /// Reads a wire tag.
    pub fn from_name(s: &str) -> (r: Option<SubjectType>)
        ensures
            r == subject_type_of_name(s@),
    {
        if crate::codec::str_eq(s, "radical") {
            Some(SubjectType::Radical)
        } else if crate::codec::str_eq(s, "kanji") {
            Some(SubjectType::Kanji)
        } else if crate::codec::str_eq(s, "vocabulary") {
            Some(SubjectType::Vocabulary)
        } else if crate::codec::str_eq(s, "kana_vocabulary") {
            Some(SubjectType::KanaVocabulary)
        } else {
            None
        }
    }

    /// The subject type for a resource type, when the resource type names a
    /// subject; the resource type itself otherwise, as the error.
    pub fn try_from(value: ResourceType) -> (r: Result<SubjectType, ConversionError>)
        ensures
            match value {
                ResourceType::Radical => r == Ok::<SubjectType, ConversionError>(
                    SubjectType::Radical,
                ),
                ResourceType::Kanji => r == Ok::<SubjectType, ConversionError>(
                    SubjectType::Kanji,
                ),
                ResourceType::Vocabulary => r == Ok::<SubjectType, ConversionError>(
                    SubjectType::Vocabulary,
                ),
                ResourceType::KanaVocabulary => r == Ok::<SubjectType, ConversionError>(
                    SubjectType::KanaVocabulary,
                ),
                _ => r == Err::<SubjectType, ConversionError>(ConversionError(value)),
            },
    {
        match value {
            ResourceType::KanaVocabulary => Ok(SubjectType::KanaVocabulary),
            ResourceType::Kanji => Ok(SubjectType::Kanji),
            ResourceType::Radical => Ok(SubjectType::Radical),
            ResourceType::Vocabulary => Ok(SubjectType::Vocabulary),
            r => Err(ConversionError(r)),
        }
    }

    /// The resource type that names this subject type.
    pub fn to_resource_type(&self) -> (r: ResourceType)
        ensures
            r == resource_type_of_subject(*self),
    {
        match self {
            SubjectType::KanaVocabulary => ResourceType::KanaVocabulary,
            SubjectType::Kanji => ResourceType::Kanji,
            SubjectType::Radical => ResourceType::Radical,
            SubjectType::Vocabulary => ResourceType::Vocabulary,
        }
    }
}

/// The resource type that names a subject type.
pub open spec fn resource_type_of_subject(t: SubjectType) -> ResourceType {
    match t {
        SubjectType::Radical => ResourceType::Radical,
        SubjectType::Kanji => ResourceType::Kanji,
        SubjectType::Vocabulary => ResourceType::Vocabulary,
        SubjectType::KanaVocabulary => ResourceType::KanaVocabulary,
    }
}

/// Not all resources are subjects, so this will be returned as an error if
/// an attempted conversion fails.
#[derive(Debug, Clone, Copy, PartialEq, Eq, Structural)]
pub struct ConversionError(pub ResourceType);

impl ConversionError {
    /// Writes the error's message.
    pub fn to_string(&self) -> (r: String)
        ensures
            r@ == conversion_error_message(*self),
    {
        let mut r: String = self.0.to_string();
        r.append(" is not a subject type.");
        r
    }
}

/// The message shown for a failed conversion to a subject type.
pub open spec fn conversion_error_message(e: ConversionError) -> Seq<char> {
    crate::resource::resource_type_name(e.0) + " is not a subject type."@
}

/// An auxiliary meaning's type.
#[derive(Debug, Clone, Copy, PartialEq, Eq, Structural)]
pub enum MeaningType {
    /// Meaning is used to match for correctness.
    Whitelist,
    /// Meaning is used to match for incorrectness.
    Blacklist,
}

/// The tag under which a meaning type appears on the wire.
pub open spec fn meaning_type_name(t: MeaningType) -> Seq<char> {
    match t {
        MeaningType::Whitelist => "whitelist"@,
        MeaningType::Blacklist => "blacklist"@,
    }
}

/// The meaning type a wire tag names, if any.
pub open spec fn meaning_type_of_name(s: Seq<char>) -> Option<MeaningType> {
    if s == "whitelist"@ {
        Some(MeaningType::Whitelist)
    } else if s == "blacklist"@ {
        Some(MeaningType::Blacklist)
    } else {
        None
    }
}

/// Every wire tag names back the meaning type it was written for.
pub proof fn lemma_meaning_type_name_round_trip(t: MeaningType)
    ensures
        meaning_type_of_name(meaning_type_name(t)) == Some(t),
{
    reveal_strlit("whitelist");
    reveal_strlit("blacklist");
    assert("whitelist"@.len() == 9);
    assert("blacklist"@.len() == 9);
    assert("whitelist"@[0] != "blacklist"@[0]);
}

impl MeaningType {
    /// Writes the wire tag for this meaning type.
    pub fn to_string(&self) -> (r: String)
        ensures
            r@ == meaning_type_name(*self),
    {
        match self {
            MeaningType::Whitelist => "whitelist".to_owned(),
            MeaningType::Blacklist => "blacklist".to_owned(),
        }
    }

    /// Reads a wire tag.
    pub fn from_name(s: &str) -> (r: Option<MeaningType>)
        ensures
            r == meaning_type_of_name(s@),
    {
        if crate::codec::str_eq(s, "whitelist") {
            Some(MeaningType::Whitelist)
        } else if crate::codec::str_eq(s, "blacklist") {
            Some(MeaningType::Blacklist)
        } else {
            None
        }
    }
}

/// The classfication of a kanji reading
#[derive(Debug, Clone, Copy, PartialEq, Eq, Structural)]
pub enum KanjiReadingType {
    /// Kun'yomi readings are Japanese readings of a kanji.
    Kunyomi,
    /// Nanori readings are nonstandard readings almost exclusively used in
    /// names.
    Nanori,
    /// On'yomi readings are derived from the Chinese readings of a kanji.
    Onyomi,
}

/// The tag under which a kanji reading type appears on the wire.
pub open spec fn kanji_reading_type_name(t: KanjiReadingType) -> Seq<char> {
    match t {
        KanjiReadingType::Kunyomi => "kunyomi"@,
        KanjiReadingType::Nanori => "nanori"@,
        KanjiReadingType::Onyomi => "onyomi"@,
    }
}

/// The kanji reading type a wire tag names, if any.
pub open spec fn kanji_reading_type_of_name(s: Seq<char>) -> Option<KanjiReadingType> {
    if s == "kunyomi"@ {
        Some(KanjiReadingType::Kunyomi)
    } else if s == "nanori"@ {
        Some(KanjiReadingType::Nanori)
    } else if s == "onyomi"@ {
        Some(KanjiReadingType::Onyomi)
    } else {
        None
    }
}

/// Every wire tag names back the reading type it was written for.
pub proof fn lemma_kanji_reading_type_name_round_trip(t: KanjiReadingType)
    ensures
        kanji_reading_type_of_name(kanji_reading_type_name(t)) == Some(t),
{
    reveal_strlit("kunyomi");
    reveal_strlit("nanori");
    reveal_strlit("onyomi");
    assert("kunyomi"@.len() == 7);
    assert("nanori"@.len() == 6);
    assert("onyomi"@.len() == 6);
    assert("nanori"@[0] != "onyomi"@[0]);
}

impl KanjiReadingType {
    /// Writes the wire tag for this reading type.
    pub fn to_string(&self) -> (r: String)
        ensures
            r@ == kanji_reading_type_name(*self),
    {
        match self {
            KanjiReadingType::Kunyomi => "kunyomi".to_owned(),
            KanjiReadingType::Nanori => "nanori".to_owned(),
            KanjiReadingType::Onyomi => "onyomi".to_owned(),
        }
    }

    /// Reads a wire tag.
    pub fn from_name(s: &str) -> (r: Option<KanjiReadingType>)
        ensures
            r == kanji_reading_type_of_name(s@),
    {
        if crate::codec::str_eq(s, "kunyomi") {
            Some(KanjiReadingType::Kunyomi)
        } else if crate::codec::str_eq(s, "nanori") {
            Some(KanjiReadingType::Nanori)
        } else if crate::codec::str_eq(s, "onyomi") {
            Some(KanjiReadingType::Onyomi)
        } else {
            None
        }
    }
}

/// A meaning for a subject.
#[derive(Debug, Clone, PartialEq, Eq)]
pub struct Meaning {
    /// A singular subject meaning.
    pub meaning: String,
    /// Indicates priority in the WaniKani system.
    pub primary: bool,
    /// Indicates if the meaning is used to evaluate user input for
    /// correctness.
    pub accepted_answer: bool,
}

/// The view of a [`Meaning`].
pub struct MeaningV {
    /// A singular subject meaning.
    pub meaning: Seq<char>,
    /// Indicates priority in the WaniKani system.
    pub primary: bool,
    /// Indicates if the meaning is used to evaluate user input.
    pub accepted_answer: bool,
}

impl JsonPayload for Meaning {
    type V = MeaningV;

    open spec fn deep(self) -> MeaningV {
        MeaningV {
            meaning: self.meaning@,
            primary: self.primary,
            accepted_answer: self.accepted_answer,
        }
    }

    open spec fn v_wf(v: MeaningV) -> bool {
        true
    }

    open spec fn to_json_v(v: MeaningV) -> JsonV {
        JsonV::Object(
            seq![
                ("meaning"@, JsonV::Str(v.meaning)),
                ("primary"@, JsonV::Bool(v.primary)),
                ("accepted_answer"@, JsonV::Bool(v.accepted_answer)),
            ],
        )
    }

    open spec fn of_json_v(j: JsonV) -> Option<MeaningV> {
        match j {
            JsonV::Object(f) => {
                match (
                    v_str(f, "meaning"@),
                    v_bool(f, "primary"@),
                    v_bool(f, "accepted_answer"@),
                ) {
                    (Some(meaning), Some(primary), Some(accepted_answer)) => Some(
                        MeaningV { meaning, primary, accepted_answer },
                    ),
                    _ => None,
                }
            },
            _ => None,
        }
    }

    #[verifier::rlimit(100)]
    fn encode(&self) -> (r: JsonValue) {
        let mut fields: Vec<(String, JsonValue)> = Vec::new();
        push_field(&mut fields, "meaning", JsonValue::of_string(&self.meaning));
        push_field(&mut fields, "primary", JsonValue::Bool(self.primary));
        push_field(&mut fields, "accepted_answer", JsonValue::Bool(self.accepted_answer));
        proof {
            assert(fields_deep(fields@) =~= Self::to_json_v(self.deep())->Object_0);
            assert(forall|i: int| 0 <= i < fields@.len() ==> (#[trigger] fields@[i]).1.wf());
        }
        JsonValue::Object(fields)
    }

    fn decode(j: &JsonValue) -> (r: Result<Self, DecodeError>) {
        match j {
            JsonValue::Object(f) => {
                let meaning = match get_string(f, "meaning") {
                    Ok(x) => x,
                    Err(e) => {
                        return Err(e);
                    },
                };
                let primary = match get_bool(f, "primary") {
                    Ok(x) => x,
                    Err(e) => {
                        return Err(e);
                    },
                };
                let accepted_answer = match get_bool(f, "accepted_answer") {
                    Ok(x) => x,
                    Err(e) => {
                        return Err(e);
                    },
                };
                Ok(Meaning { meaning, primary, accepted_answer })
            },
            _ => Err(DecodeError),
        }
    }

    #[verifier::rlimit(100)]
    proof fn round_trip(v: MeaningV) {
        let f = Self::to_json_v(v)->Object_0;
        reveal_strlit("meaning");
        reveal_strlit("primary");
        reveal_strlit("accepted_answer");
        assert("meaning"@.len() == 7);
        assert("primary"@.len() == 7);
        assert("accepted_answer"@.len() == 15);
        assert("meaning"@[0] != "primary"@[0]);
        assert(f.len() == 3);
        lemma_obj_get_skips(f);
        assert(obj_get_v(f, "meaning"@) == Some(f[0].1));
        assert(obj_get_v(f, "primary"@) == Some(f[1].1));
        assert(obj_get_v(f, "accepted_answer"@) == Some(f[2].1));
    }
}

/// A secondary meaning for a subject. This may include incorrect meanings
/// that are used to check for incorrectness.
#[derive(Debug, Clone, PartialEq, Eq)]
pub struct AuxilliaryMeaning {
    /// A singular subject meaning.
    pub meaning: String,
    /// The type of the meaning; written under the `type` key.
    pub meaning_type: MeaningType,
}

/// The view of an [`AuxilliaryMeaning`].
pub struct AuxilliaryMeaningV {
    /// A singular subject meaning.
    pub meaning: Seq<char>,
    /// The type of the meaning.
    pub meaning_type: MeaningType,
}

impl JsonPayload for AuxilliaryMeaning {
    type V = AuxilliaryMeaningV;

    open spec fn deep(self) -> AuxilliaryMeaningV {
        AuxilliaryMeaningV { meaning: self.meaning@, meaning_type: self.meaning_type }
    }

    open spec fn v_wf(v: AuxilliaryMeaningV) -> bool {
        true
    }

    open spec fn to_json_v(v: AuxilliaryMeaningV) -> JsonV {
        JsonV::Object(
            seq![
                ("meaning"@, JsonV::Str(v.meaning)),
                ("type"@, JsonV::Str(meaning_type_name(v.meaning_type))),
            ],
        )
    }

    open spec fn of_json_v(j: JsonV) -> Option<AuxilliaryMeaningV> {
        match j {
            JsonV::Object(f) => {
                match (v_str(f, "meaning"@), v_str(f, "type"@)) {
                    (Some(meaning), Some(tag)) => match meaning_type_of_name(tag) {
                        Some(meaning_type) => Some(AuxilliaryMeaningV { meaning, meaning_type }),
                        None => None,
                    },
                    _ => None,
                }
            },
            _ => None,
        }
    }

    #[verifier::rlimit(100)]
    fn encode(&self) -> (r: JsonValue) {
        let mut fields: Vec<(String, JsonValue)> = Vec::new();
        push_field(&mut fields, "meaning", JsonValue::of_string(&self.meaning));
        push_field(&mut fields, "type", JsonValue::Str(self.meaning_type.to_string()));
        proof {
            assert(fields_deep(fields@) =~= Self::to_json_v(self.deep())->Object_0);
            assert(forall|i: int| 0 <= i < fields@.len() ==> (#[trigger] fields@[i]).1.wf());
        }
        JsonValue::Object(fields)
    }

    fn decode(j: &JsonValue) -> (r: Result<Self, DecodeError>) {
        match j {
            JsonValue::Object(f) => {
                let meaning = match get_string(f, "meaning") {
                    Ok(x) => x,
                    Err(e) => {
                        return Err(e);
                    },
                };
                let tag = match get_string(f, "type") {
                    Ok(x) => x,
                    Err(e) => {
                        return Err(e);
                    },
                };
                match MeaningType::from_name(tag.as_str()) {
                    Some(meaning_type) => Ok(AuxilliaryMeaning { meaning, meaning_type }),
                    None => Err(DecodeError),
                }
            },
            _ => Err(DecodeError),
        }
    }

    #[verifier::rlimit(100)]
    proof fn round_trip(v: AuxilliaryMeaningV) {
        let f = Self::to_json_v(v)->Object_0;
        reveal_strlit("meaning");
        reveal_strlit("type");
        assert("meaning"@.len() == 7);
        assert("type"@.len() == 4);
        assert(f.len() == 2);
        lemma_obj_get_skips(f);
        assert(obj_get_v(f, "meaning"@) == Some(f[0].1));
        assert(obj_get_v(f, "type"@) == Some(f[1].1));
        lemma_meaning_type_name_round_trip(v.meaning_type);
    }
}

/// A context sentence that shows how the vocabulary is used.
#[derive(Debug, Clone, PartialEq, Eq)]
pub struct ContextSentence {
    /// English translation of the sentence.
    pub en: String,
    /// Japanese context sentence.
    pub ja: String,
}

/// The view of a [`ContextSentence`].
pub struct ContextSentenceV {
    /// English translation of the sentence.
    pub en: Seq<char>,
    /// Japanese context sentence.
    pub ja: Seq<char>,
}

impl JsonPayload for ContextSentence {
    type V = ContextSentenceV;

    open spec fn deep(self) -> ContextSentenceV {
        ContextSentenceV { en: self.en@, ja: self.ja@ }
    }

    open spec fn v_wf(v: ContextSentenceV) -> bool {
        true
    }

    open spec fn to_json_v(v: ContextSentenceV) -> JsonV {
        JsonV::Object(seq![("en"@, JsonV::Str(v.en)), ("ja"@, JsonV::Str(v.ja))])
    }

    open spec fn of_json_v(j: JsonV) -> Option<ContextSentenceV> {
        match j {
            JsonV::Object(f) => {
                match (v_str(f, "en"@), v_str(f, "ja"@)) {
                    (Some(en), Some(ja)) => Some(ContextSentenceV { en, ja }),
                    _ => None,
                }
            },
            _ => None,
        }
    }

    #[verifier::rlimit(100)]
    fn encode(&self) -> (r: JsonValue) {
        let mut fields: Vec<(String, JsonValue)> = Vec::new();
        push_field(&mut fields, "en", JsonValue::of_string(&self.en));
        push_field(&mut fields, "ja", JsonValue::of_string(&self.ja));
        proof {
            assert(fields_deep(fields@) =~= Self::to_json_v(self.deep())->Object_0);
            assert(forall|i: int| 0 <= i < fields@.len() ==> (#[trigger] fields@[i]).1.wf());
        }
        JsonValue::Object(fields)
    }

    fn decode(j: &JsonValue) -> (r: Result<Self, DecodeError>) {
        match j {
            JsonValue::Object(f) => {
                let en = match get_string(f, "en") {
                    Ok(x) => x,
                    Err(e) => {
                        return Err(e);
                    },
                };
                let ja = match get_string(f, "ja") {
                    Ok(x) => x,
                    Err(e) => {
                        return Err(e);
                    },
                };
                Ok(ContextSentence { en, ja })
            },
            _ => Err(DecodeError),
        }
    }

    #[verifier::rlimit(100)]
    proof fn round_trip(v: ContextSentenceV) {
        let f = Self::to_json_v(v)->Object_0;
        reveal_strlit("en");
        reveal_strlit("ja");
        assert("en"@.len() == 2);
        assert("ja"@.len() == 2);
        assert("en"@[0] != "ja"@[0]);
        assert(f.len() == 2);
        lemma_obj_get_skips(f);
        assert(obj_get_v(f, "en"@) == Some(f[0].1));
        assert(obj_get_v(f, "ja"@) == Some(f[1].1));
    }
}

/// A selected reading for the vocabulary.
#[derive(Debug, Clone, PartialEq, Eq)]
pub struct VocabularyReading {
    /// Indicates if the reading is used to evaluate user input for
    /// correctness.
    pub accepted_answer: bool,
    /// Indicates priority in the WaniKani system.
    pub primary: bool,
    /// A singular subject reading.
    pub reading: String,
}

/// The view of a [`VocabularyReading`].
pub struct VocabularyReadingV {
    /// Indicates if the reading is used to evaluate user input.
    pub accepted_answer: bool,
    /// Indicates priority in the WaniKani system.
    pub primary: bool,
    /// A singular subject reading.
    pub reading: Seq<char>,
}

impl JsonPayload for VocabularyReading {
    type V = VocabularyReadingV;

    open spec fn deep(self) -> VocabularyReadingV {
        VocabularyReadingV {
            accepted_answer: self.accepted_answer,
            primary: self.primary,
            reading: self.reading@,
        }
    }

    open spec fn v_wf(v: VocabularyReadingV) -> bool {
        true
    }

    open spec fn to_json_v(v: VocabularyReadingV) -> JsonV {
        JsonV::Object(
            seq![
                ("accepted_answer"@, JsonV::Bool(v.accepted_answer)),
                ("primary"@, JsonV::Bool(v.primary)),
                ("reading"@, JsonV::Str(v.reading)),
            ],
        )
    }

    open spec fn of_json_v(j: JsonV) -> Option<VocabularyReadingV> {
        match j {
            JsonV::Object(f) => {
                match (
                    v_bool(f, "accepted_answer"@),
                    v_bool(f, "primary"@),
                    v_str(f, "reading"@),
                ) {
                    (Some(accepted_answer), Some(primary), Some(reading)) => Some(
                        VocabularyReadingV { accepted_answer, primary, reading },
                    ),
                    _ => None,
                }
            },
            _ => None,
        }
    }

    #[verifier::rlimit(100)]
    fn encode(&self) -> (r: JsonValue) {
        let mut fields: Vec<(String, JsonValue)> = Vec::new();
        push_field(&mut fields, "accepted_answer", JsonValue::Bool(self.accepted_answer));
        push_field(&mut fields, "primary", JsonValue::Bool(self.primary));
        push_field(&mut fields, "reading", JsonValue::of_string(&self.reading));
        proof {
            assert(fields_deep(fields@) =~= Self::to_json_v(self.deep())->Object_0);
            assert(forall|i: int| 0 <= i < fields@.len() ==> (#[trigger] fields@[i]).1.wf());
        }
        JsonValue::Object(fields)
    }

    fn decode(j: &JsonValue) -> (r: Result<Self, DecodeError>) {
        match j {
            JsonValue::Object(f) => {
                let accepted_answer = match get_bool(f, "accepted_answer") {
                    Ok(x) => x,
                    Err(e) => {
                        return Err(e);
                    },
                };
                let primary = match get_bool(f, "primary") {
                    Ok(x) => x,
                    Err(e) => {
                        return Err(e);
                    },
                };
                let reading = match get_string(f, "reading") {
                    Ok(x) => x,
                    Err(e) => {
                        return Err(e);
                    },
                };
                Ok(VocabularyReading { accepted_answer, primary, reading })
            },
            _ => Err(DecodeError),
        }
    }

    #[verifier::rlimit(100)]
    proof fn round_trip(v: VocabularyReadingV) {
        let f = Self::to_json_v(v)->Object_0;
        reveal_strlit("accepted_answer");
        reveal_strlit("primary");
        reveal_strlit("reading");
        assert("accepted_answer"@.len() == 15);
        assert("primary"@.len() == 7);
        assert("reading"@.len() == 7);
        assert("primary"@[0] != "reading"@[0]);
        assert(f.len() == 3);
        lemma_obj_get_skips(f);
        assert(obj_get_v(f, "accepted_answer"@) == Some(f[0].1));
        assert(obj_get_v(f, "primary"@) == Some(f[1].1));
        assert(obj_get_v(f, "reading"@) == Some(f[2].1));
    }
}

/// A Kanji reading.
#[derive(Debug, Clone, PartialEq, Eq)]
pub struct KanjiReading {
    /// A singular subject reading.
    pub reading: String,
    /// Indicates priority in the WaniKani system.
    pub primary: bool,
    /// Indicates if the reading is used to evaluate user input for
    /// correctness.
    pub accepted_answer: bool,
    /// The kanji reading's classfication; written under the `type` key.
    pub reading_type: KanjiReadingType,
}

/// The view of a [`KanjiReading`].
pub struct KanjiReadingV {
    /// A singular subject reading.
    pub reading: Seq<char>,
    /// Indicates priority in the WaniKani system.
    pub primary: bool,
    /// Indicates if the reading is used to evaluate user input.
    pub accepted_answer: bool,
    /// The kanji reading's classfication.
    pub reading_type: KanjiReadingType,
}

impl JsonPayload for KanjiReading {
    type V = KanjiReadingV;

    open spec fn deep(self) -> KanjiReadingV {
        KanjiReadingV {
            reading: self.reading@,
            primary: self.primary,
            accepted_answer: self.accepted_answer,
            reading_type: self.reading_type,
        }
    }

    open spec fn v_wf(v: KanjiReadingV) -> bool {
        true
    }

    open spec fn to_json_v(v: KanjiReadingV) -> JsonV {
        JsonV::Object(
            seq![
                ("reading"@, JsonV::Str(v.reading)),
                ("primary"@, JsonV::Bool(v.primary)),
                ("accepted_answer"@, JsonV::Bool(v.accepted_answer)),
                ("type"@, JsonV::Str(kanji_reading_type_name(v.reading_type))),
            ],
        )
    }

    open spec fn of_json_v(j: JsonV) -> Option<KanjiReadingV> {
        match j {
            JsonV::Object(f) => {
                match (
                    v_str(f, "reading"@),
                    v_bool(f, "primary"@),
                    v_bool(f, "accepted_answer"@),
                    v_str(f, "type"@),
                ) {
                    (Some(reading), Some(primary), Some(accepted_answer), Some(tag)) => match
                    kanji_reading_type_of_name(tag) {
                        Some(reading_type) => Some(
                            KanjiReadingV { reading, primary, accepted_answer, reading_type },
                        ),
                        None => None,
                    },
                    _ => None,
                }
            },
            _ => None,
        }
    }

    #[verifier::rlimit(100)]
    fn encode(&self) -> (r: JsonValue) {
        let mut fields: Vec<(String, JsonValue)> = Vec::new();
        push_field(&mut fields, "reading", JsonValue::of_string(&self.reading));
        push_field(&mut fields, "primary", JsonValue::Bool(self.primary));
        push_field(&mut fields, "accepted_answer", JsonValue::Bool(self.accepted_answer));
        push_field(&mut fields, "type", JsonValue::Str(self.reading_type.to_string()));
        proof {
            assert(fields_deep(fields@) =~= Self::to_json_v(self.deep())->Object_0);
            assert(forall|i: int| 0 <= i < fields@.len() ==> (#[trigger] fields@[i]).1.wf());
        }
        JsonValue::Object(fields)
    }

    fn decode(j: &JsonValue) -> (r: Result<Self, DecodeError>) {
        match j {
            JsonValue::Object(f) => {
                let reading = match get_string(f, "reading") {
                    Ok(x) => x,
                    Err(e) => {
                        return Err(e);
                    },
                };
                let primary = match get_bool(f, "primary") {
                    Ok(x) => x,
                    Err(e) => {
                        return Err(e);
                    },
                };
                let accepted_answer = match get_bool(f, "accepted_answer") {
                    Ok(x) => x,
                    Err(e) => {
                        return Err(e);
                    },
                };
                let tag = match get_string(f, "type") {
                    Ok(x) => x,
                    Err(e) => {
                        return Err(e);
                    },
                };
                match KanjiReadingType::from_name(tag.as_str()) {
                    Some(reading_type) => Ok(
                        KanjiReading { reading, primary, accepted_answer, reading_type },
                    ),
                    None => Err(DecodeError),
                }
            },
            _ => Err(DecodeError),
        }
    }

    #[verifier::rlimit(100)]
    proof fn round_trip(v: KanjiReadingV) {
        let f = Self::to_json_v(v)->Object_0;
        reveal_strlit("reading");
        reveal_strlit("primary");
        reveal_strlit("accepted_answer");
        reveal_strlit("type");
        assert("reading"@.len() == 7);
        assert("primary"@.len() == 7);
        assert("accepted_answer"@.len() == 15);
        assert("type"@.len() == 4);
        assert("reading"@[0] != "primary"@[0]);
        assert(f.len() == 4);
        lemma_obj_get_skips(f);
        assert(obj_get_v(f, "reading"@) == Some(f[0].1));
        assert(obj_get_v(f, "primary"@) == Some(f[1].1));
        assert(obj_get_v(f, "accepted_answer"@) == Some(f[2].1));
        assert(obj_get_v(f, "type"@) == Some(f[3].1));
        lemma_kanji_reading_type_name_round_trip(v.reading_type);
    }
}

/// Details about an image: the shapes the API delivers for SVG and PNG
/// assets.  The wire format carries no discriminant; the SVG shape is tried
/// first, and the PNG shape second.
#[derive(Debug, Clone, PartialEq, Eq)]
pub enum ImageMetadata {
    /// Details of an SVG image.
    SVG {
        /// The SVG asset contains built-in CSS styling.
        inline_styles: bool,
    },
    /// Details of a PNG image.
    PNG {
        /// Color of the asset in hexadecimal
        color: String,
        /// Dimension of the asset in pixels.
        dimensions: String,
        /// A name descriptor
        style_name: String,
    },
}

/// The view of an [`ImageMetadata`].
pub enum ImageMetadataV {
    /// Details of an SVG image.
    SVG {
        /// The SVG asset contains built-in CSS styling.
        inline_styles: bool,
    },
    /// Details of a PNG image.
    PNG {
        /// Color of the asset in hexadecimal.
        color: Seq<char>,
        /// Dimension of the asset in pixels.
        dimensions: Seq<char>,
        /// A name descriptor.
        style_name: Seq<char>,
    },
}

impl JsonPayload for ImageMetadata {
    type V = ImageMetadataV;

    open spec fn deep(self) -> ImageMetadataV {
        match self {
            ImageMetadata::SVG { inline_styles } => ImageMetadataV::SVG { inline_styles },
            ImageMetadata::PNG { color, dimensions, style_name } => ImageMetadataV::PNG {
                color: color@,
                dimensions: dimensions@,
                style_name: style_name@,
            },
        }
    }

    open spec fn v_wf(v: ImageMetadataV) -> bool {
        true
    }

    open spec fn to_json_v(v: ImageMetadataV) -> JsonV {
        match v {
            ImageMetadataV::SVG { inline_styles } => JsonV::Object(
                seq![("inline_styles"@, JsonV::Bool(inline_styles))],
            ),
            ImageMetadataV::PNG { color, dimensions, style_name } => JsonV::Object(
                seq![
                    ("color"@, JsonV::Str(color)),
                    ("dimensions"@, JsonV::Str(dimensions)),
                    ("style_name"@, JsonV::Str(style_name)),
                ],
            ),
        }
    }

    open spec fn of_json_v(j: JsonV) -> Option<ImageMetadataV> {
        match j {
            JsonV::Object(f) => {
                match v_bool(f, "inline_styles"@) {
                    Some(inline_styles) => Some(ImageMetadataV::SVG { inline_styles }),
                    None => match (
                        v_str(f, "color"@),
                        v_str(f, "dimensions"@),
                        v_str(f, "style_name"@),
                    ) {
                        (Some(color), Some(dimensions), Some(style_name)) => Some(
                            ImageMetadataV::PNG { color, dimensions, style_name },
                        ),
                        _ => None,
                    },
                }
            },
            _ => None,
        }
    }

    #[verifier::rlimit(100)]
    fn encode(&self) -> (r: JsonValue) {
        let mut fields: Vec<(String, JsonValue)> = Vec::new();
        match self {
            ImageMetadata::SVG { inline_styles } => {
                push_field(&mut fields, "inline_styles", JsonValue::Bool(*inline_styles));
            },
            ImageMetadata::PNG { color, dimensions, style_name } => {
                push_field(&mut fields, "color", JsonValue::of_string(color));
                push_field(&mut fields, "dimensions", JsonValue::of_string(dimensions));
                push_field(&mut fields, "style_name", JsonValue::of_string(style_name));
            },
        }
        proof {
            assert(fields_deep(fields@) =~= Self::to_json_v(self.deep())->Object_0);
            assert(forall|i: int| 0 <= i < fields@.len() ==> (#[trigger] fields@[i]).1.wf());
        }
        JsonValue::Object(fields)
    }

    fn decode(j: &JsonValue) -> (r: Result<Self, DecodeError>) {
        match j {
            JsonValue::Object(f) => {
                match get_bool(f, "inline_styles") {
                    Ok(inline_styles) => Ok(ImageMetadata::SVG { inline_styles }),
                    Err(_) => {
                        let color = match get_string(f, "color") {
                            Ok(x) => x,
                            Err(e) => {
                                return Err(e);
                            },
                        };
                        let dimensions = match get_string(f, "dimensions") {
                            Ok(x) => x,
                            Err(e) => {
                                return Err(e);
                            },
                        };
                        let style_name = match get_string(f, "style_name") {
                            Ok(x) => x,
                            Err(e) => {
                                return Err(e);
                            },
                        };
                        Ok(ImageMetadata::PNG { color, dimensions, style_name })
                    },
                }
            },
            _ => Err(DecodeError),
        }
    }

    #[verifier::rlimit(100)]
    proof fn round_trip(v: ImageMetadataV) {
        let f = Self::to_json_v(v)->Object_0;
        reveal_strlit("inline_styles");
        reveal_strlit("color");
        reveal_strlit("dimensions");
        reveal_strlit("style_name");
        assert("inline_styles"@.len() == 13);
        assert("color"@.len() == 5);
        assert("dimensions"@.len() == 10);
        assert("style_name"@.len() == 10);
        assert("dimensions"@[0] != "style_name"@[0]);
        lemma_obj_get_skips(f);
        match v {
            ImageMetadataV::SVG { inline_styles } => {
                assert(obj_get_v(f, "inline_styles"@) == Some(f[0].1));
            },
            ImageMetadataV::PNG { color, dimensions, style_name } => {
                assert(obj_get_v(f, "inline_styles"@) is None);
                assert(obj_get_v(f, "color"@) == Some(f[0].1));
                assert(obj_get_v(f, "dimensions"@) == Some(f[1].1));
                assert(obj_get_v(f, "style_name"@) == Some(f[2].1));
            },
        }
    }
}

/// An image that can be used to represent a radical when no character is
/// available.
#[derive(Debug, Clone, PartialEq, Eq)]
pub struct CharacterImage {
    /// The location of the image.
    pub url: String,
    /// The content type of the image. Currently the API delivers
    /// `image/png` and `image/svg+xml`.
    pub content_type: String,
    /// Details about the image. Each content type returns a uniquely
    /// structured object.
    pub metadata: ImageMetadata,
}

/// The view of a [`CharacterImage`].
pub struct CharacterImageV {
    /// The location of the image.
    pub url: Seq<char>,
    /// The content type of the image.
    pub content_type: Seq<char>,
    /// Details about the image.
    pub metadata: ImageMetadataV,
}

impl JsonPayload for CharacterImage {
    type V = CharacterImageV;

    open spec fn deep(self) -> CharacterImageV {
        CharacterImageV {
            url: self.url@,
            content_type: self.content_type@,
            metadata: self.metadata.deep(),
        }
    }

    open spec fn v_wf(v: CharacterImageV) -> bool {
        true
    }

    open spec fn to_json_v(v: CharacterImageV) -> JsonV {
        JsonV::Object(
            seq![
                ("url"@, JsonV::Str(v.url)),
                ("content_type"@, JsonV::Str(v.content_type)),
                ("metadata"@, ImageMetadata::to_json_v(v.metadata)),
            ],
        )
    }

    open spec fn of_json_v(j: JsonV) -> Option<CharacterImageV> {
        match j {
            JsonV::Object(f) => {
                match (v_str(f, "url"@), v_str(f, "content_type"@), obj_get_v(f, "metadata"@)) {
                    (Some(url), Some(content_type), Some(mj)) => match ImageMetadata::of_json_v(
                        mj,
                    ) {
                        Some(metadata) => Some(CharacterImageV { url, content_type, metadata }),
                        None => None,
                    },
                    _ => None,
                }
            },
            _ => None,
        }
    }

    #[verifier::rlimit(100)]
    fn encode(&self) -> (r: JsonValue) {
        let mut fields: Vec<(String, JsonValue)> = Vec::new();
        push_field(&mut fields, "url", JsonValue::of_string(&self.url));
        push_field(&mut fields, "content_type", JsonValue::of_string(&self.content_type));
        push_field(&mut fields, "metadata", self.metadata.encode());
        proof {
            assert(fields_deep(fields@) =~= Self::to_json_v(self.deep())->Object_0);
            assert(forall|i: int| 0 <= i < fields@.len() ==> (#[trigger] fields@[i]).1.wf());
        }
        JsonValue::Object(fields)
    }

    fn decode(j: &JsonValue) -> (r: Result<Self, DecodeError>) {
        match j {
            JsonValue::Object(f) => {
                let url = match get_string(f, "url") {
                    Ok(x) => x,
                    Err(e) => {
                        return Err(e);
                    },
                };
                let content_type = match get_string(f, "content_type") {
                    Ok(x) => x,
                    Err(e) => {
                        return Err(e);
                    },
                };
                match obj_get(f, "metadata") {
                    Some(mj) => match ImageMetadata::decode(mj) {
                        Ok(metadata) => Ok(CharacterImage { url, content_type, metadata }),
                        Err(e) => Err(e),
                    },
                    None => Err(DecodeError),
                }
            },
            _ => Err(DecodeError),
        }
    }

    #[verifier::rlimit(100)]
    proof fn round_trip(v: CharacterImageV) {
        let f = Self::to_json_v(v)->Object_0;
        reveal_strlit("url");
        reveal_strlit("content_type");
        reveal_strlit("metadata");
        assert("url"@.len() == 3);
        assert("content_type"@.len() == 12);
        assert("metadata"@.len() == 8);
        assert(f.len() == 3);
        lemma_obj_get_skips(f);
        assert(obj_get_v(f, "url"@) == Some(f[0].1));
        assert(obj_get_v(f, "content_type"@) == Some(f[1].1));
        assert(obj_get_v(f, "metadata"@) == Some(f[2].1));
        ImageMetadata::round_trip(v.metadata);
    }
}

/// Details on a pronunciation audio clip.
#[derive(Debug, Clone, PartialEq, Eq)]
pub struct AudioMetadata {
    /// The gender of the voice actor.
    pub gender: Gender,
    /// A unique ID shared between same source pronunciation audio.
    pub source_id: u64,
    /// Vocabulary being pronounced in kana.
    pub pronunciation: String,
    /// A unique ID belonging to the voice actor.
    pub voice_actor_id: u64,
    /// Humanized name of the voice actor.
    pub voice_actor_name: String,
    /// Description of the voice.
    pub voice_description: String,
}

/// The view of an [`AudioMetadata`].
pub struct AudioMetadataV {
    /// The gender of the voice actor.
    pub gender: Gender,
    /// A unique ID shared between same source pronunciation audio.
    pub source_id: u64,
    /// Vocabulary being pronounced in kana.
    pub pronunciation: Seq<char>,
    /// A unique ID belonging to the voice actor.
    pub voice_actor_id: u64,
    /// Humanized name of the voice actor.
    pub voice_actor_name: Seq<char>,
    /// Description of the voice.
    pub voice_description: Seq<char>,
}

impl JsonPayload for AudioMetadata {
    type V = AudioMetadataV;

    open spec fn deep(self) -> AudioMetadataV {
        AudioMetadataV {
            gender: self.gender,
            source_id: self.source_id,
            pronunciation: self.pronunciation@,
            voice_actor_id: self.voice_actor_id,
            voice_actor_name: self.voice_actor_name@,
            voice_description: self.voice_description@,
        }
    }

    open spec fn v_wf(v: AudioMetadataV) -> bool {
        true
    }

    open spec fn to_json_v(v: AudioMetadataV) -> JsonV {
        JsonV::Object(
            seq![
                ("gender"@, JsonV::Str(gender_name(v.gender))),
                ("source_id"@, JsonV::Num(v.source_id as int)),
                ("pronunciation"@, JsonV::Str(v.pronunciation)),
                ("voice_actor_id"@, JsonV::Num(v.voice_actor_id as int)),
                ("voice_actor_name"@, JsonV::Str(v.voice_actor_name)),
                ("voice_description"@, JsonV::Str(v.voice_description)),
            ],
        )
    }

    open spec fn of_json_v(j: JsonV) -> Option<AudioMetadataV> {
        match j {
            JsonV::Object(f) => {
                match (
                    v_gender(f, "gender"@),
                    v_u64(f, "source_id"@),
                    v_str(f, "pronunciation"@),
                    v_u64(f, "voice_actor_id"@),
                    v_str(f, "voice_actor_name"@),
                    v_str(f, "voice_description"@),
                ) {
                    (
                        Some(gender),
                        Some(source_id),
                        Some(pronunciation),
                        Some(voice_actor_id),
                        Some(voice_actor_name),
                        Some(voice_description),
                    ) => Some(
                        AudioMetadataV {
                            gender,
                            source_id,
                            pronunciation,
                            voice_actor_id,
                            voice_actor_name,
                            voice_description,
                        },
                    ),
                    _ => None,
                }
            },
            _ => None,
        }
    }

    #[verifier::rlimit(100)]
    fn encode(&self) -> (r: JsonValue) {
        let mut fields: Vec<(String, JsonValue)> = Vec::new();
        push_field(&mut fields, "gender", JsonValue::Str(self.gender.to_string()));
        push_field(&mut fields, "source_id", JsonValue::of_u64(self.source_id));
        push_field(&mut fields, "pronunciation", JsonValue::of_string(&self.pronunciation));
        push_field(&mut fields, "voice_actor_id", JsonValue::of_u64(self.voice_actor_id));
        push_field(&mut fields, "voice_actor_name", JsonValue::of_string(&self.voice_actor_name));
        push_field(
            &mut fields,
            "voice_description",
            JsonValue::of_string(&self.voice_description),
        );
        proof {
            assert(fields_deep(fields@) =~= Self::to_json_v(self.deep())->Object_0);
            assert(forall|i: int| 0 <= i < fields@.len() ==> (#[trigger] fields@[i]).1.wf());
        }
        JsonValue::Object(fields)
    }

    fn decode(j: &JsonValue) -> (r: Result<Self, DecodeError>) {
        match j {
            JsonValue::Object(f) => {
                let gender = match get_gender(f, "gender") {
                    Ok(x) => x,
                    Err(e) => {
                        return Err(e);
                    },
                };
                let source_id = match get_u64(f, "source_id") {
                    Ok(x) => x,
                    Err(e) => {
                        return Err(e);
                    },
                };
                let pronunciation = match get_string(f, "pronunciation") {
                    Ok(x) => x,
                    Err(e) => {
                        return Err(e);
                    },
                };
                let voice_actor_id = match get_u64(f, "voice_actor_id") {
                    Ok(x) => x,
                    Err(e) => {
                        return Err(e);
                    },
                };
                let voice_actor_name = match get_string(f, "voice_actor_name") {
                    Ok(x) => x,
                    Err(e) => {
                        return Err(e);
                    },
                };
                let voice_description = match get_string(f, "voice_description") {
                    Ok(x) => x,
                    Err(e) => {
                        return Err(e);
                    },
                };
                Ok(
                    AudioMetadata {
                        gender,
                        source_id,
                        pronunciation,
                        voice_actor_id,
                        voice_actor_name,
                        voice_description,
                    },
                )
            },
            _ => Err(DecodeError),
        }
    }

    #[verifier::rlimit(100)]
    proof fn round_trip(v: AudioMetadataV) {
        let f = Self::to_json_v(v)->Object_0;
        reveal_strlit("gender");
        reveal_strlit("source_id");
        reveal_strlit("pronunciation");
        reveal_strlit("voice_actor_id");
        reveal_strlit("voice_actor_name");
        reveal_strlit("voice_description");
        assert("gender"@.len() == 6);
        assert("source_id"@.len() == 9);
        assert("pronunciation"@.len() == 13);
        assert("voice_actor_id"@.len() == 14);
        assert("voice_actor_name"@.len() == 16);
        assert("voice_description"@.len() == 17);
        assert(f.len() == 6);
        lemma_obj_get_skips(f);
        assert(obj_get_v(f, "gender"@) == Some(f[0].1));
        assert(obj_get_v(f, "source_id"@) == Some(f[1].1));
        assert(obj_get_v(f, "pronunciation"@) == Some(f[2].1));
        assert(obj_get_v(f, "voice_actor_id"@) == Some(f[3].1));
        assert(obj_get_v(f, "voice_actor_name"@) == Some(f[4].1));
        assert(obj_get_v(f, "voice_description"@) == Some(f[5].1));
        lemma_gender_name_round_trip(v.gender);
    }
}

/// Audio files that demonstrate how the vocabulary is pronounced.
#[derive(Debug, Clone, PartialEq, Eq)]
pub struct PronunciationAudio {
    /// The location of the audio.
    pub url: String,
    /// The content type of the audio. Currently the API delivers
    /// `audio/mpeg` and `audio/ogg`.
    pub content_type: String,
    /// Details about the pronunciation audio.
    pub metadata: AudioMetadata,
}

/// The view of a [`PronunciationAudio`].
pub struct PronunciationAudioV {
    /// The location of the audio.
    pub url: Seq<char>,
    /// The content type of the audio.
    pub content_type: Seq<char>,
    /// Details about the pronunciation audio.
    pub metadata: AudioMetadataV,
}

impl JsonPayload for PronunciationAudio {
    type V = PronunciationAudioV;

    open spec fn deep(self) -> PronunciationAudioV {
        PronunciationAudioV {
            url: self.url@,
            content_type: self.content_type@,
            metadata: self.metadata.deep(),
        }
    }

    open spec fn v_wf(v: PronunciationAudioV) -> bool {
        true
    }

    open spec fn to_json_v(v: PronunciationAudioV) -> JsonV {
        JsonV::Object(
            seq![
                ("url"@, JsonV::Str(v.url)),
                ("content_type"@, JsonV::Str(v.content_type)),
                ("metadata"@, AudioMetadata::to_json_v(v.metadata)),
            ],
        )
    }

    open spec fn of_json_v(j: JsonV) -> Option<PronunciationAudioV> {
        match j {
            JsonV::Object(f) => {
                match (v_str(f, "url"@), v_str(f, "content_type"@), obj_get_v(f, "metadata"@)) {
                    (Some(url), Some(content_type), Some(mj)) => match AudioMetadata::of_json_v(
                        mj,
                    ) {
                        Some(metadata) => Some(
                            PronunciationAudioV { url, content_type, metadata },
                        ),
                        None => None,
                    },
                    _ => None,
                }
            },
            _ => None,
        }
    }

    #[verifier::rlimit(100)]
    fn encode(&self) -> (r: JsonValue) {
        let mut fields: Vec<(String, JsonValue)> = Vec::new();
        push_field(&mut fields, "url", JsonValue::of_string(&self.url));
        push_field(&mut fields, "content_type", JsonValue::of_string(&self.content_type));
        push_field(&mut fields, "metadata", self.metadata.encode());
        proof {
            assert(fields_deep(fields@) =~= Self::to_json_v(self.deep())->Object_0);
            assert(forall|i: int| 0 <= i < fields@.len() ==> (#[trigger] fields@[i]).1.wf());
        }
        JsonValue::Object(fields)
    }

    fn decode(j: &JsonValue) -> (r: Result<Self, DecodeError>) {
        match j {
            JsonValue::Object(f) => {
                let url = match get_string(f, "url") {
                    Ok(x) => x,
                    Err(e) => {
                        return Err(e);
                    },
                };
                let content_type = match get_string(f, "content_type") {
                    Ok(x) => x,
                    Err(e) => {
                        return Err(e);
                    },
                };
                match obj_get(f, "metadata") {
                    Some(mj) => match AudioMetadata::decode(mj) {
                        Ok(metadata) => Ok(PronunciationAudio { url, content_type, metadata }),
                        Err(e) => Err(e),
                    },
                    None => Err(DecodeError),
                }
            },
            _ => Err(DecodeError),
        }
    }

    #[verifier::rlimit(100)]
    proof fn round_trip(v: PronunciationAudioV) {
        let f = Self::to_json_v(v)->Object_0;
        reveal_strlit("url");
        reveal_strlit("content_type");
        reveal_strlit("metadata");
        assert("url"@.len() == 3);
        assert("content_type"@.len() == 12);
        assert("metadata"@.len() == 8);
        assert(f.len() == 3);
        lemma_obj_get_skips(f);
        assert(obj_get_v(f, "url"@) == Some(f[0].1));
        assert(obj_get_v(f, "content_type"@) == Some(f[1].1));
        assert(obj_get_v(f, "metadata"@) == Some(f[2].1));
        AudioMetadata::round_trip(v.metadata);
    }
}

/// Attributes that are common to all subject types; they appear flattened
/// in every subject payload.
#[derive(Debug, Clone, PartialEq, Eq)]
pub struct SubjectCommon {
    /// Collection of auxiliary meanings.
    pub auxiliary_meanings: Vec<AuxilliaryMeaning>,
    /// Timestamp when the subject was created.
    pub created_at: Timestamp,
    /// A URL pointing to the page on wanikani.com that provides detailed
    /// information about this subject.
    pub document_url: String,
    /// Timestamp when the subject was hidden, indicating associated
    /// assignments will no longer appear in lessons or reviews.
    pub hidden_at: Option<Timestamp>,
    /// The position that the subject appears in lessons. The value is
    /// scoped to the level of the subject, so there are duplicate values
    /// across levels.
    pub lesson_position: u32,
    /// The level of the subject.
    pub level: u32,
    /// The subject's meaning mnemonic.
    pub meaning_mnemonic: String,
    /// The subject meanings.
    pub meanings: Vec<Meaning>,
    /// The string that is used when generating the document URL for the
    /// subject.
    pub slug: String,
    /// Unique identifier of the associated spaced repetition system
    pub spaced_repetition_system_id: u64,
}

/// The view of a [`SubjectCommon`].
pub struct SubjectCommonV {
    /// Collection of auxiliary meanings.
    pub auxiliary_meanings: Seq<AuxilliaryMeaningV>,
    /// Timestamp when the subject was created.
    pub created_at: Timestamp,
    /// The subject's documentation URL.
    pub document_url: Seq<char>,
    /// Timestamp when the subject was hidden.
    pub hidden_at: Option<Timestamp>,
    /// The position that the subject appears in lessons.
    pub lesson_position: u32,
    /// The level of the subject.
    pub level: u32,
    /// The subject's meaning mnemonic.
    pub meaning_mnemonic: Seq<char>,
    /// The subject meanings.
    pub meanings: Seq<MeaningV>,
    /// The subject's slug.
    pub slug: Seq<char>,
    /// Unique identifier of the associated spaced repetition system.
    pub spaced_repetition_system_id: u64,
}

impl SubjectCommon {
    /// The view of this value.
    pub open spec fn deep(self) -> SubjectCommonV {
        SubjectCommonV {
            auxiliary_meanings: self.auxiliary_meanings@.map_values(
                |m: AuxilliaryMeaning| m.deep(),
            ),
            created_at: self.created_at,
            document_url: self.document_url@,
            hidden_at: self.hidden_at,
            lesson_position: self.lesson_position,
            level: self.level,
            meaning_mnemonic: self.meaning_mnemonic@,
            meanings: self.meanings@.map_values(|m: Meaning| m.deep()),
            slug: self.slug@,
            spaced_repetition_system_id: self.spaced_repetition_system_id,
        }
    }
}

/// Valid timestamps throughout a common part.
pub open spec fn subject_common_wf(c: SubjectCommonV) -> bool {
    &&& c.created_at.wf()
    &&& c.hidden_at matches Some(t) ==> t.wf()
}

/// The ten members every subject payload starts with.
pub open spec fn common_members(c: SubjectCommonV) -> Seq<(Seq<char>, JsonV)> {
    seq![
        (
            "auxiliary_meanings"@,
            JsonV::Array(payloads_to_json_v::<AuxilliaryMeaning>(c.auxiliary_meanings)),
        ),
        ("created_at"@, JsonV::Str(rfc3339(c.created_at))),
        ("document_url"@, JsonV::Str(c.document_url)),
        (
            "hidden_at"@,
            match c.hidden_at {
                Some(t) => JsonV::Str(rfc3339(t)),
                None => JsonV::Null,
            },
        ),
        ("lesson_position"@, JsonV::Num(c.lesson_position as int)),
        ("level"@, JsonV::Num(c.level as int)),
        ("meaning_mnemonic"@, JsonV::Str(c.meaning_mnemonic)),
        ("meanings"@, JsonV::Array(payloads_to_json_v::<Meaning>(c.meanings))),
        ("slug"@, JsonV::Str(c.slug)),
        ("spaced_repetition_system_id"@, JsonV::Num(c.spaced_repetition_system_id as int)),
    ]
}

/// Reads the common members out of a subject payload object.
pub open spec fn common_of_obj(f: Seq<(Seq<char>, JsonV)>) -> Option<SubjectCommonV> {
    match (
        obj_get_v(f, "auxiliary_meanings"@),
        crate::codec::v_time(f, "created_at"@),
        v_str(f, "document_url"@),
        crate::codec::v_opt_time(f, "hidden_at"@),
        v_u32(f, "lesson_position"@),
        v_u32(f, "level"@),
        v_str(f, "meaning_mnemonic"@),
        obj_get_v(f, "meanings"@),
        v_str(f, "slug"@),
        v_u64(f, "spaced_repetition_system_id"@),
    ) {
        (
            Some(JsonV::Array(am)),
            Some(created_at),
            Some(document_url),
            Some(hidden_at),
            Some(lesson_position),
            Some(level),
            Some(meaning_mnemonic),
            Some(JsonV::Array(ms)),
            Some(slug),
            Some(spaced_repetition_system_id),
        ) => match (
            payloads_of_json_v::<AuxilliaryMeaning>(am),
            payloads_of_json_v::<Meaning>(ms),
        ) {
            (Some(auxiliary_meanings), Some(meanings)) => Some(
                SubjectCommonV {
                    auxiliary_meanings,
                    created_at,
                    document_url,
                    hidden_at,
                    lesson_position,
                    level,
                    meaning_mnemonic,
                    meanings,
                    slug,
                    spaced_repetition_system_id,
                },
            ),
            _ => None,
        },
        _ => None,
    }
}

/// Appends the common members to a subject payload under construction.
#[verifier::rlimit(100)]
pub fn push_subject_common(fields: &mut Vec<(String, JsonValue)>, c: &SubjectCommon)
    requires
        old(fields)@.len() == 0,
        subject_common_wf(c.deep()),
    ensures
        fields_deep(final(fields)@) == common_members(c.deep()),
        forall|i: int| 0 <= i < final(fields)@.len() ==> (#[trigger] final(fields)@[i]).1.wf(),
{
    push_field(
        fields,
        "auxiliary_meanings",
        encode_payload_vec::<AuxilliaryMeaning>(&c.auxiliary_meanings),
    );
    push_field(fields, "created_at", time_json(&c.created_at));
    push_field(fields, "document_url", JsonValue::of_string(&c.document_url));
    push_field(fields, "hidden_at", crate::codec::opt_time_json(&c.hidden_at));
    push_field(fields, "lesson_position", JsonValue::of_u64(c.lesson_position as u64));
    push_field(fields, "level", JsonValue::of_u64(c.level as u64));
    push_field(fields, "meaning_mnemonic", JsonValue::of_string(&c.meaning_mnemonic));
    push_field(fields, "meanings", encode_payload_vec::<Meaning>(&c.meanings));
    push_field(fields, "slug", JsonValue::of_string(&c.slug));
    push_field(
        fields,
        "spaced_repetition_system_id",
        JsonValue::of_u64(c.spaced_repetition_system_id),
    );
    proof {
        assert(fields_deep(fields@) =~= common_members(c.deep()));
    }
}

/// Reads the common members of a subject payload.
pub fn decode_subject_common(f: &Vec<(String, JsonValue)>) -> (r: Result<
    SubjectCommon,
    DecodeError,
>)
    ensures
        match r {
            Ok(c) => common_of_obj(fields_deep(f@)) == Some(c.deep()),
            Err(_) => common_of_obj(fields_deep(f@)) is None,
        },
{
    let auxiliary_meanings: Vec<AuxilliaryMeaning> = match obj_get(f, "auxiliary_meanings") {
        Some(JsonValue::Array(elems)) => match decode_payload_vec::<AuxilliaryMeaning>(elems) {
            Ok(x) => x,
            Err(e) => {
                return Err(e);
            },
        },
        _ => {
            return Err(DecodeError);
        },
    };
    let created_at = match get_time(f, "created_at") {
        Ok(x) => x,
        Err(e) => {
            return Err(e);
        },
    };
    let document_url = match get_string(f, "document_url") {
        Ok(x) => x,
        Err(e) => {
            return Err(e);
        },
    };
    let hidden_at = match crate::codec::get_opt_time(f, "hidden_at") {
        Ok(x) => x,
        Err(e) => {
            return Err(e);
        },
    };
    let lesson_position = match get_u32(f, "lesson_position") {
        Ok(x) => x,
        Err(e) => {
            return Err(e);
        },
    };
    let level = match get_u32(f, "level") {
        Ok(x) => x,
        Err(e) => {
            return Err(e);
        },
    };
    let meaning_mnemonic = match get_string(f, "meaning_mnemonic") {
        Ok(x) => x,
        Err(e) => {
            return Err(e);
        },
    };
    let meanings: Vec<Meaning> = match obj_get(f, "meanings") {
        Some(JsonValue::Array(elems)) => match decode_payload_vec::<Meaning>(elems) {
            Ok(x) => x,
            Err(e) => {
                return Err(e);
            },
        },
        _ => {
            return Err(DecodeError);
        },
    };
    let slug = match get_string(f, "slug") {
        Ok(x) => x,
        Err(e) => {
            return Err(e);
        },
    };
    let spaced_repetition_system_id = match get_u64(f, "spaced_repetition_system_id") {
        Ok(x) => x,
        Err(e) => {
            return Err(e);
        },
    };
    Ok(
        SubjectCommon {
            auxiliary_meanings,
            created_at,
            document_url,
            hidden_at,
            lesson_position,
            level,
            meaning_mnemonic,
            meanings,
            slug,
            spaced_repetition_system_id,
        },
    )
}

/// Reading back a written array of strings yields the same strings.
pub proof fn lemma_strs_round_trip(vs: Seq<Seq<char>>)
    ensures
        crate::codec::strs_of(vs.map_values(|s: Seq<char>| JsonV::Str(s))) == Some(vs),
    decreases vs.len(),
{
    let elems = vs.map_values(|s: Seq<char>| JsonV::Str(s));
    if vs.len() == 0 {
        assert(elems.len() == 0);
    } else {
        assert(forall|i: int|
            0 <= i < vs.len() - 1 ==> #[trigger] vs.drop_first()[i] == vs[i + 1]);
        lemma_strs_round_trip(vs.drop_first());
        assert(elems[0] == JsonV::Str(vs[0]));
        assert(elems.drop_first() =~= vs.drop_first().map_values(
            |s: Seq<char>| JsonV::Str(s),
        ));
        assert(seq![vs[0]] + vs.drop_first() =~= vs);
    }
}

/// Reading back a written array of numbers yields the same numbers.
pub proof fn lemma_nums_round_trip(vs: Seq<u64>)
    ensures
        crate::codec::nums_of(vs.map_values(|x: u64| JsonV::Num(x as int))) == Some(vs),
    decreases vs.len(),
{
    let elems = vs.map_values(|x: u64| JsonV::Num(x as int));
    if vs.len() == 0 {
        assert(elems.len() == 0);
    } else {
        assert(forall|i: int|
            0 <= i < vs.len() - 1 ==> #[trigger] vs.drop_first()[i] == vs[i + 1]);
        lemma_nums_round_trip(vs.drop_first());
        assert(elems[0] == JsonV::Num(vs[0] as int));
        assert(elems.drop_first() =~= vs.drop_first().map_values(
            |x: u64| JsonV::Num(x as int),
        ));
        assert(seq![vs[0]] + vs.drop_first() =~= vs);
    }
}

/// A radical is a kanji component, around which mnemonics for remembering kanji can be created.
#[derive(Debug, Clone, PartialEq, Eq)]
pub struct Radical {
    /// Attributes common to all subjects.
    pub common: SubjectCommon,
    /// Numeric identifiers, as the API relates subjects.
    pub amalgamation_subject_ids: Vec<u64>,
    /// The characters, when the radical has a UTF-8 entry.
    pub characters: Option<String>,
    /// A collection of images of the radical.
    pub character_images: Vec<CharacterImage>,
}

/// The view of a [`Radical`].
pub struct RadicalV {
    /// Attributes common to all subjects.
    pub common: SubjectCommonV,
    /// Numeric identifiers, as the API relates subjects.
    pub amalgamation_subject_ids: Seq<u64>,
    /// The characters, when the radical has a UTF-8 entry.
    pub characters: Option<Seq<char>>,
    /// A collection of images of the radical.
    pub character_images: Seq<CharacterImageV>,
}

impl JsonPayload for Radical {
    type V = RadicalV;

    open spec fn deep(self) -> RadicalV {
        RadicalV { common: self.common.deep(), amalgamation_subject_ids: self.amalgamation_subject_ids@, characters: match self.characters {
            Some(s) => Some(s@),
            None => None,
        }, character_images: self.character_images@.map_values(|x: CharacterImage| x.deep()) }
    }

    open spec fn v_wf(v: RadicalV) -> bool {
        subject_common_wf(v.common)
    }

    open spec fn to_json_v(v: RadicalV) -> JsonV {
        JsonV::Object(common_members(v.common) + seq![
            ("amalgamation_subject_ids"@, JsonV::Array(v.amalgamation_subject_ids.map_values(|x: u64| JsonV::Num(x as int)))),
            (
                "characters"@,
                match v.characters {
                    Some(c) => JsonV::Str(c),
                    None => JsonV::Null,
                },
            ),
            ("character_images"@, JsonV::Array(payloads_to_json_v::<CharacterImage>(v.character_images))),
        ])
    }

    open spec fn of_json_v(j: JsonV) -> Option<RadicalV> {
        match j {
            JsonV::Object(f) => {
                match (common_of_obj(f), crate::codec::v_u64_seq(f, "amalgamation_subject_ids"@), v_opt_str(f, "characters"@), obj_get_v(f, "character_images"@)) {
                    (Some(common), Some(amalgamation_subject_ids), Some(characters), Some(JsonV::Array(character_images_elems))) => match (payloads_of_json_v::<CharacterImage>(character_images_elems)) { (Some(character_images)) => Some(RadicalV { common, amalgamation_subject_ids, characters, character_images }), _ => None },
                    _ => None,
                }
            },
            _ => None,
        }
    }

    #[verifier::rlimit(100)]
    fn encode(&self) -> (r: JsonValue) {
        let mut fields: Vec<(String, JsonValue)> = Vec::new();
        push_subject_common(&mut fields, &self.common);
        push_field(&mut fields, "amalgamation_subject_ids", arr_u64(&self.amalgamation_subject_ids));
        push_field(&mut fields, "characters", opt_str_json(&self.characters));
        push_field(&mut fields, "character_images", encode_payload_vec::<CharacterImage>(&self.character_images));
        proof {
            assert(fields_deep(fields@) =~= Self::to_json_v(self.deep())->Object_0);
            assert(forall|i: int| 0 <= i < fields@.len() ==> (#[trigger] fields@[i]).1.wf());
        }
        JsonValue::Object(fields)
    }

    fn decode(j: &JsonValue) -> (r: Result<Self, DecodeError>) {
        match j {
            JsonValue::Object(f) => {
                let common = match decode_subject_common(f) {
                    Ok(x) => x,
                    Err(e) => {
                        return Err(e);
                    },
                };
                let amalgamation_subject_ids = match get_u64_vec(f, "amalgamation_subject_ids") {
                    Ok(x) => x,
                    Err(e) => {
                        return Err(e);
                    },
                };
                let characters = match get_opt_string(f, "characters") {
                    Ok(x) => x,
                    Err(e) => {
                        return Err(e);
                    },
                };
                let character_images: Vec<CharacterImage> = match obj_get(f, "character_images") {
                    Some(JsonValue::Array(elems)) => match decode_payload_vec::<CharacterImage>(elems) {
                        Ok(x) => x,
                        Err(e) => {
                            return Err(e);
                        },
                    },
                    _ => {
                        return Err(DecodeError);
                    },
                };
                Ok(Radical { common, amalgamation_subject_ids, characters, character_images })
            },
            _ => Err(DecodeError),
        }
    }

    #[verifier::rlimit(100)]
    proof fn round_trip(v: RadicalV) {
        let f = Self::to_json_v(v)->Object_0;
        reveal_strlit("auxiliary_meanings");
        reveal_strlit("created_at");
        reveal_strlit("document_url");
        reveal_strlit("hidden_at");
        reveal_strlit("lesson_position");
        reveal_strlit("level");
        reveal_strlit("meaning_mnemonic");
        reveal_strlit("meanings");
        reveal_strlit("slug");
        reveal_strlit("spaced_repetition_system_id");
        assert("auxiliary_meanings"@.len() == 18);
        assert("created_at"@.len() == 10);
        assert("document_url"@.len() == 12);
        assert("hidden_at"@.len() == 9);
        assert("lesson_position"@.len() == 15);
        assert("level"@.len() == 5);
        assert("meaning_mnemonic"@.len() == 16);
        assert("meanings"@.len() == 8);
        assert("slug"@.len() == 4);
        assert("spaced_repetition_system_id"@.len() == 27);
        reveal_strlit("amalgamation_subject_ids");
        assert("amalgamation_subject_ids"@.len() == 24);
        reveal_strlit("characters");
        assert("characters"@.len() == 10);
        assert("characters"@[1] != "created_at"@[1]);
        reveal_strlit("character_images");
        assert("character_images"@.len() == 16);
        assert("character_images"@[0] != "meaning_mnemonic"@[0]);
        assert(f.len() == 13);
        lemma_obj_get_skips(f);
        assert(obj_get_v(f, "auxiliary_meanings"@) == Some(f[0].1));
        assert(obj_get_v(f, "created_at"@) == Some(f[1].1));
        assert(obj_get_v(f, "document_url"@) == Some(f[2].1));
        assert(obj_get_v(f, "hidden_at"@) == Some(f[3].1));
        assert(obj_get_v(f, "lesson_position"@) == Some(f[4].1));
        assert(obj_get_v(f, "level"@) == Some(f[5].1));
        assert(obj_get_v(f, "meaning_mnemonic"@) == Some(f[6].1));
        assert(obj_get_v(f, "meanings"@) == Some(f[7].1));
        assert(obj_get_v(f, "slug"@) == Some(f[8].1));
        assert(obj_get_v(f, "spaced_repetition_system_id"@) == Some(f[9].1));
        assert(obj_get_v(f, "amalgamation_subject_ids"@) == Some(f[10].1));
        assert(obj_get_v(f, "characters"@) == Some(f[11].1));
        assert(obj_get_v(f, "character_images"@) == Some(f[12].1));
        lemma_payloads_round_trip::<AuxilliaryMeaning>(v.common.auxiliary_meanings);
        lemma_payloads_round_trip::<Meaning>(v.common.meanings);
        lemma_rfc3339_round_trip(v.common.created_at);
        match v.common.hidden_at {
            Some(t) => {
                lemma_rfc3339_round_trip(t);
            },
            None => {},
        }
        lemma_nums_round_trip(v.amalgamation_subject_ids);
        lemma_payloads_round_trip::<CharacterImage>(v.character_images);
        assert(common_of_obj(f) == Some(v.common));
    }
}

/// A kanji subject.
#[derive(Debug, Clone, PartialEq, Eq)]
pub struct Kanji {
    /// Attributes common to all subjects.
    pub common: SubjectCommon,
    /// Numeric identifiers, as the API relates subjects.
    pub amalgamation_subject_ids: Vec<u64>,
    /// The UTF-8 characters for the subject.
    pub characters: String,
    /// Numeric identifiers, as the API relates subjects.
    pub component_subject_ids: Vec<u64>,
    /// A hint, when one has been written.
    pub meaning_hint: Option<String>,
    /// A hint, when one has been written.
    pub reading_hint: Option<String>,
    /// The UTF-8 characters for the subject.
    pub reading_mnemonic: String,
    /// Selected readings for the kanji.
    pub readings: Vec<KanjiReading>,
    /// Numeric identifiers, as the API relates subjects.
    pub visually_similar_subject_ids: Vec<u64>,
}

/// The view of a [`Kanji`].
pub struct KanjiV {
    /// Attributes common to all subjects.
    pub common: SubjectCommonV,
    /// Numeric identifiers, as the API relates subjects.
    pub amalgamation_subject_ids: Seq<u64>,
    /// The UTF-8 characters for the subject.
    pub characters: Seq<char>,
    /// Numeric identifiers, as the API relates subjects.
    pub component_subject_ids: Seq<u64>,
    /// A hint, when one has been written.
    pub meaning_hint: Option<Seq<char>>,
    /// A hint, when one has been written.
    pub reading_hint: Option<Seq<char>>,
    /// The UTF-8 characters for the subject.
    pub reading_mnemonic: Seq<char>,
    /// Selected readings for the kanji.
    pub readings: Seq<KanjiReadingV>,
    /// Numeric identifiers, as the API relates subjects.
    pub visually_similar_subject_ids: Seq<u64>,
}

impl JsonPayload for Kanji {
    type V = KanjiV;

    open spec fn deep(self) -> KanjiV {
        KanjiV { common: self.common.deep(), amalgamation_subject_ids: self.amalgamation_subject_ids@, characters: self.characters@, component_subject_ids: self.component_subject_ids@, meaning_hint: match self.meaning_hint {
            Some(s) => Some(s@),
            None => None,
        }, reading_hint: match self.reading_hint {
            Some(s) => Some(s@),
            None => None,
        }, reading_mnemonic: self.reading_mnemonic@, readings: self.readings@.map_values(|x: KanjiReading| x.deep()), visually_similar_subject_ids: self.visually_similar_subject_ids@ }
    }

    open spec fn v_wf(v: KanjiV) -> bool {
        subject_common_wf(v.common)
    }

    open spec fn to_json_v(v: KanjiV) -> JsonV {
        JsonV::Object(common_members(v.common) + seq![
            ("amalgamation_subject_ids"@, JsonV::Array(v.amalgamation_subject_ids.map_values(|x: u64| JsonV::Num(x as int)))),
            ("characters"@, JsonV::Str(v.characters)),
            ("component_subject_ids"@, JsonV::Array(v.component_subject_ids.map_values(|x: u64| JsonV::Num(x as int)))),
            (
                "meaning_hint"@,
                match v.meaning_hint {
                    Some(c) => JsonV::Str(c),
                    None => JsonV::Null,
                },
            ),
            (
                "reading_hint"@,
                match v.reading_hint {
                    Some(c) => JsonV::Str(c),
                    None => JsonV::Null,
                },
            ),
            ("reading_mnemonic"@, JsonV::Str(v.reading_mnemonic)),
            ("readings"@, JsonV::Array(payloads_to_json_v::<KanjiReading>(v.readings))),
            ("visually_similar_subject_ids"@, JsonV::Array(v.visually_similar_subject_ids.map_values(|x: u64| JsonV::Num(x as int)))),
        ])
    }

    open spec fn of_json_v(j: JsonV) -> Option<KanjiV> {
        match j {
            JsonV::Object(f) => {
                match (common_of_obj(f), crate::codec::v_u64_seq(f, "amalgamation_subject_ids"@), v_str(f, "characters"@), crate::codec::v_u64_seq(f, "component_subject_ids"@), v_opt_str(f, "meaning_hint"@), v_opt_str(f, "reading_hint"@), v_str(f, "reading_mnemonic"@), obj_get_v(f, "readings"@), crate::codec::v_u64_seq(f, "visually_similar_subject_ids"@)) {
                    (Some(common), Some(amalgamation_subject_ids), Some(characters), Some(component_subject_ids), Some(meaning_hint), Some(reading_hint), Some(reading_mnemonic), Some(JsonV::Array(readings_elems)), Some(visually_similar_subject_ids)) => match (payloads_of_json_v::<KanjiReading>(readings_elems)) { (Some(readings)) => Some(KanjiV { common, amalgamation_subject_ids, characters, component_subject_ids, meaning_hint, reading_hint, reading_mnemonic, readings, visually_similar_subject_ids }), _ => None },
                    _ => None,
                }
            },
            _ => None,
        }
    }

    #[verifier::rlimit(100)]
    fn encode(&self) -> (r: JsonValue) {
        let mut fields: Vec<(String, JsonValue)> = Vec::new();
        push_subject_common(&mut fields, &self.common);
        push_field(&mut fields, "amalgamation_subject_ids", arr_u64(&self.amalgamation_subject_ids));
        push_field(&mut fields, "characters", JsonValue::of_string(&self.characters));
        push_field(&mut fields, "component_subject_ids", arr_u64(&self.component_subject_ids));
        push_field(&mut fields, "meaning_hint", opt_str_json(&self.meaning_hint));
        push_field(&mut fields, "reading_hint", opt_str_json(&self.reading_hint));
        push_field(&mut fields, "reading_mnemonic", JsonValue::of_string(&self.reading_mnemonic));
        push_field(&mut fields, "readings", encode_payload_vec::<KanjiReading>(&self.readings));
        push_field(&mut fields, "visually_similar_subject_ids", arr_u64(&self.visually_similar_subject_ids));
        proof {
            assert(fields_deep(fields@) =~= Self::to_json_v(self.deep())->Object_0);
            assert(forall|i: int| 0 <= i < fields@.len() ==> (#[trigger] fields@[i]).1.wf());
        }
        JsonValue::Object(fields)
    }

    fn decode(j: &JsonValue) -> (r: Result<Self, DecodeError>) {
        match j {
            JsonValue::Object(f) => {
                let common = match decode_subject_common(f) {
                    Ok(x) => x,
                    Err(e) => {
                        return Err(e);
                    },
                };
                let amalgamation_subject_ids = match get_u64_vec(f, "amalgamation_subject_ids") {
                    Ok(x) => x,
                    Err(e) => {
                        return Err(e);
                    },
                };
                let characters = match get_string(f, "characters") {
                    Ok(x) => x,
                    Err(e) => {
                        return Err(e);
                    },
                };
                let component_subject_ids = match get_u64_vec(f, "component_subject_ids") {
                    Ok(x) => x,
                    Err(e) => {
                        return Err(e);
                    },
                };
                let meaning_hint = match get_opt_string(f, "meaning_hint") {
                    Ok(x) => x,
                    Err(e) => {
                        return Err(e);
                    },
                };
                let reading_hint = match get_opt_string(f, "reading_hint") {
                    Ok(x) => x,
                    Err(e) => {
                        return Err(e);
                    },
                };
                let reading_mnemonic = match get_string(f, "reading_mnemonic") {
                    Ok(x) => x,
                    Err(e) => {
                        return Err(e);
                    },
                };
                let readings: Vec<KanjiReading> = match obj_get(f, "readings") {
                    Some(JsonValue::Array(elems)) => match decode_payload_vec::<KanjiReading>(elems) {
                        Ok(x) => x,
                        Err(e) => {
                            return Err(e);
                        },
                    },
                    _ => {
                        return Err(DecodeError);
                    },
                };
                let visually_similar_subject_ids = match get_u64_vec(f, "visually_similar_subject_ids") {
                    Ok(x) => x,
                    Err(e) => {
                        return Err(e);
                    },
                };
                Ok(Kanji { common, amalgamation_subject_ids, characters, component_subject_ids, meaning_hint, reading_hint, reading_mnemonic, readings, visually_similar_subject_ids })
            },
            _ => Err(DecodeError),
        }
    }

    #[verifier::rlimit(100)]
    proof fn round_trip(v: KanjiV) {
        let f = Self::to_json_v(v)->Object_0;
        reveal_strlit("auxiliary_meanings");
        reveal_strlit("created_at");
        reveal_strlit("document_url");
        reveal_strlit("hidden_at");
        reveal_strlit("lesson_position");
        reveal_strlit("level");
        reveal_strlit("meaning_mnemonic");
        reveal_strlit("meanings");
        reveal_strlit("slug");
        reveal_strlit("spaced_repetition_system_id");
        assert("auxiliary_meanings"@.len() == 18);
        assert("created_at"@.len() == 10);
        assert("document_url"@.len() == 12);
        assert("hidden_at"@.len() == 9);
        assert("lesson_position"@.len() == 15);
        assert("level"@.len() == 5);
        assert("meaning_mnemonic"@.len() == 16);
        assert("meanings"@.len() == 8);
        assert("slug"@.len() == 4);
        assert("spaced_repetition_system_id"@.len() == 27);
        reveal_strlit("amalgamation_subject_ids");
        assert("amalgamation_subject_ids"@.len() == 24);
        reveal_strlit("characters");
        assert("characters"@.len() == 10);
        assert("characters"@[1] != "created_at"@[1]);
        reveal_strlit("component_subject_ids");
        assert("component_subject_ids"@.len() == 21);
        reveal_strlit("meaning_hint");
        assert("meaning_hint"@.len() == 12);
        assert("meaning_hint"@[0] != "document_url"@[0]);
        reveal_strlit("reading_hint");
        assert("reading_hint"@.len() == 12);
        assert("reading_hint"@[0] != "document_url"@[0]);
        assert("reading_hint"@[0] != "meaning_hint"@[0]);
        reveal_strlit("reading_mnemonic");
        assert("reading_mnemonic"@.len() == 16);
        assert("reading_mnemonic"@[0] != "meaning_mnemonic"@[0]);
        reveal_strlit("readings");
        assert("readings"@.len() == 8);
        assert("readings"@[0] != "meanings"@[0]);
        reveal_strlit("visually_similar_subject_ids");
        assert("visually_similar_subject_ids"@.len() == 28);
        assert(f.len() == 18);
        lemma_obj_get_skips(f);
        assert(obj_get_v(f, "auxiliary_meanings"@) == Some(f[0].1));
        assert(obj_get_v(f, "created_at"@) == Some(f[1].1));
        assert(obj_get_v(f, "document_url"@) == Some(f[2].1));
        assert(obj_get_v(f, "hidden_at"@) == Some(f[3].1));
        assert(obj_get_v(f, "lesson_position"@) == Some(f[4].1));
        assert(obj_get_v(f, "level"@) == Some(f[5].1));
        assert(obj_get_v(f, "meaning_mnemonic"@) == Some(f[6].1));
        assert(obj_get_v(f, "meanings"@) == Some(f[7].1));
        assert(obj_get_v(f, "slug"@) == Some(f[8].1));
        assert(obj_get_v(f, "spaced_repetition_system_id"@) == Some(f[9].1));
        assert(obj_get_v(f, "amalgamation_subject_ids"@) == Some(f[10].1));
        assert(obj_get_v(f, "characters"@) == Some(f[11].1));
        assert(obj_get_v(f, "component_subject_ids"@) == Some(f[12].1));
        assert(obj_get_v(f, "meaning_hint"@) == Some(f[13].1));
        assert(obj_get_v(f, "reading_hint"@) == Some(f[14].1));
        assert(obj_get_v(f, "reading_mnemonic"@) == Some(f[15].1));
        assert(obj_get_v(f, "readings"@) == Some(f[16].1));
        assert(obj_get_v(f, "visually_similar_subject_ids"@) == Some(f[17].1));
        lemma_payloads_round_trip::<AuxilliaryMeaning>(v.common.auxiliary_meanings);
        lemma_payloads_round_trip::<Meaning>(v.common.meanings);
        lemma_rfc3339_round_trip(v.common.created_at);
        match v.common.hidden_at {
            Some(t) => {
                lemma_rfc3339_round_trip(t);
            },
            None => {},
        }
        lemma_nums_round_trip(v.amalgamation_subject_ids);
        lemma_nums_round_trip(v.component_subject_ids);
        lemma_payloads_round_trip::<KanjiReading>(v.readings);
        lemma_nums_round_trip(v.visually_similar_subject_ids);
        assert(common_of_obj(f) == Some(v.common));
    }
}

/// A kanji-based vocabulary word.
#[derive(Debug, Clone, PartialEq, Eq)]
pub struct Vocabulary {
    /// Attributes common to all subjects.
    pub common: SubjectCommon,
    /// The UTF-8 characters for the subject.
    pub characters: String,
    /// Numeric identifiers, as the API relates subjects.
    pub component_subject_ids: Vec<u64>,
    /// A collection of context sentences.
    pub context_sentences: Vec<ContextSentence>,
    /// Parts of speech.
    pub parts_of_speech: Vec<String>,
    /// A collection of pronunciation audio.
    pub pronunciation_audios: Vec<PronunciationAudio>,
    /// Selected readings for the vocabulary.
    pub readings: Vec<VocabularyReading>,
    /// The UTF-8 characters for the subject.
    pub reading_mnemonic: String,
}

/// The view of a [`Vocabulary`].
pub struct VocabularyV {
    /// Attributes common to all subjects.
    pub common: SubjectCommonV,
    /// The UTF-8 characters for the subject.
    pub characters: Seq<char>,
    /// Numeric identifiers, as the API relates subjects.
    pub component_subject_ids: Seq<u64>,
    /// A collection of context sentences.
    pub context_sentences: Seq<ContextSentenceV>,
    /// Parts of speech.
    pub parts_of_speech: Seq<Seq<char>>,
    /// A collection of pronunciation audio.
    pub pronunciation_audios: Seq<PronunciationAudioV>,
    /// Selected readings for the vocabulary.
    pub readings: Seq<VocabularyReadingV>,
    /// The UTF-8 characters for the subject.
    pub reading_mnemonic: Seq<char>,
}

impl JsonPayload for Vocabulary {
    type V = VocabularyV;

    open spec fn deep(self) -> VocabularyV {
        VocabularyV { common: self.common.deep(), characters: self.characters@, component_subject_ids: self.component_subject_ids@, context_sentences: self.context_sentences@.map_values(|x: ContextSentence| x.deep()), parts_of_speech: self.parts_of_speech@.map_values(|s: String| s@), pronunciation_audios: self.pronunciation_audios@.map_values(|x: PronunciationAudio| x.deep()), readings: self.readings@.map_values(|x: VocabularyReading| x.deep()), reading_mnemonic: self.reading_mnemonic@ }
    }

    open spec fn v_wf(v: VocabularyV) -> bool {
        subject_common_wf(v.common)
    }

    open spec fn to_json_v(v: VocabularyV) -> JsonV {
        JsonV::Object(common_members(v.common) + seq![
            ("characters"@, JsonV::Str(v.characters)),
            ("component_subject_ids"@, JsonV::Array(v.component_subject_ids.map_values(|x: u64| JsonV::Num(x as int)))),
            ("context_sentences"@, JsonV::Array(payloads_to_json_v::<ContextSentence>(v.context_sentences))),
            ("parts_of_speech"@, JsonV::Array(v.parts_of_speech.map_values(|s: Seq<char>| JsonV::Str(s)))),
            ("pronunciation_audios"@, JsonV::Array(payloads_to_json_v::<PronunciationAudio>(v.pronunciation_audios))),
            ("readings"@, JsonV::Array(payloads_to_json_v::<VocabularyReading>(v.readings))),
            ("reading_mnemonic"@, JsonV::Str(v.reading_mnemonic)),
        ])
    }

    open spec fn of_json_v(j: JsonV) -> Option<VocabularyV> {
        match j {
            JsonV::Object(f) => {
                match (common_of_obj(f), v_str(f, "characters"@), crate::codec::v_u64_seq(f, "component_subject_ids"@), obj_get_v(f, "context_sentences"@), crate::codec::v_str_seq(f, "parts_of_speech"@), obj_get_v(f, "pronunciation_audios"@), obj_get_v(f, "readings"@), v_str(f, "reading_mnemonic"@)) {
                    (Some(common), Some(characters), Some(component_subject_ids), Some(JsonV::Array(context_sentences_elems)), Some(parts_of_speech), Some(JsonV::Array(pronunciation_audios_elems)), Some(JsonV::Array(readings_elems)), Some(reading_mnemonic)) => match (payloads_of_json_v::<ContextSentence>(context_sentences_elems), payloads_of_json_v::<PronunciationAudio>(pronunciation_audios_elems), payloads_of_json_v::<VocabularyReading>(readings_elems)) { (Some(context_sentences), Some(pronunciation_audios), Some(readings)) => Some(VocabularyV { common, characters, component_subject_ids, context_sentences, parts_of_speech, pronunciation_audios, readings, reading_mnemonic }), _ => None },
                    _ => None,
                }
            },
            _ => None,
        }
    }

    #[verifier::rlimit(100)]
    fn encode(&self) -> (r: JsonValue) {
        let mut fields: Vec<(String, JsonValue)> = Vec::new();
        push_subject_common(&mut fields, &self.common);
        push_field(&mut fields, "characters", JsonValue::of_string(&self.characters));
        push_field(&mut fields, "component_subject_ids", arr_u64(&self.component_subject_ids));
        push_field(&mut fields, "context_sentences", encode_payload_vec::<ContextSentence>(&self.context_sentences));
        push_field(&mut fields, "parts_of_speech", arr_strings(&self.parts_of_speech));
        proof {
            assert(self.parts_of_speech@.map_values(|s: String| JsonV::Str(s@))
                =~= self.parts_of_speech@.map_values(|s: String| s@).map_values(
                |s: Seq<char>| JsonV::Str(s),
            ));
        }
        push_field(&mut fields, "pronunciation_audios", encode_payload_vec::<PronunciationAudio>(&self.pronunciation_audios));
        push_field(&mut fields, "readings", encode_payload_vec::<VocabularyReading>(&self.readings));
        push_field(&mut fields, "reading_mnemonic", JsonValue::of_string(&self.reading_mnemonic));
        proof {
            assert(fields_deep(fields@) =~= Self::to_json_v(self.deep())->Object_0);
            assert(forall|i: int| 0 <= i < fields@.len() ==> (#[trigger] fields@[i]).1.wf());
        }
        JsonValue::Object(fields)
    }

    fn decode(j: &JsonValue) -> (r: Result<Self, DecodeError>) {
        match j {
            JsonValue::Object(f) => {
                let common = match decode_subject_common(f) {
                    Ok(x) => x,
                    Err(e) => {
                        return Err(e);
                    },
                };
                let characters = match get_string(f, "characters") {
                    Ok(x) => x,
                    Err(e) => {
                        return Err(e);
                    },
                };
                let component_subject_ids = match get_u64_vec(f, "component_subject_ids") {
                    Ok(x) => x,
                    Err(e) => {
                        return Err(e);
                    },
                };
                let context_sentences: Vec<ContextSentence> = match obj_get(f, "context_sentences") {
                    Some(JsonValue::Array(elems)) => match decode_payload_vec::<ContextSentence>(elems) {
                        Ok(x) => x,
                        Err(e) => {
                            return Err(e);
                        },
                    },
                    _ => {
                        return Err(DecodeError);
                    },
                };
                let parts_of_speech = match get_string_vec(f, "parts_of_speech") {
                    Ok(x) => x,
                    Err(e) => {
                        return Err(e);
                    },
                };
                let pronunciation_audios: Vec<PronunciationAudio> = match obj_get(f, "pronunciation_audios") {
                    Some(JsonValue::Array(elems)) => match decode_payload_vec::<PronunciationAudio>(elems) {
                        Ok(x) => x,
                        Err(e) => {
                            return Err(e);
                        },
                    },
                    _ => {
                        return Err(DecodeError);
                    },
                };
                let readings: Vec<VocabularyReading> = match obj_get(f, "readings") {
                    Some(JsonValue::Array(elems)) => match decode_payload_vec::<VocabularyReading>(elems) {
                        Ok(x) => x,
                        Err(e) => {
                            return Err(e);
                        },
                    },
                    _ => {
                        return Err(DecodeError);
                    },
                };
                let reading_mnemonic = match get_string(f, "reading_mnemonic") {
                    Ok(x) => x,
                    Err(e) => {
                        return Err(e);
                    },
                };
                Ok(Vocabulary { common, characters, component_subject_ids, context_sentences, parts_of_speech, pronunciation_audios, readings, reading_mnemonic })
            },
            _ => Err(DecodeError),
        }
    }

    #[verifier::rlimit(100)]
    proof fn round_trip(v: VocabularyV) {
        let f = Self::to_json_v(v)->Object_0;
        reveal_strlit("auxiliary_meanings");
        reveal_strlit("created_at");
        reveal_strlit("document_url");
        reveal_strlit("hidden_at");
        reveal_strlit("lesson_position");
        reveal_strlit("level");
        reveal_strlit("meaning_mnemonic");
        reveal_strlit("meanings");
        reveal_strlit("slug");
        reveal_strlit("spaced_repetition_system_id");
        assert("auxiliary_meanings"@.len() == 18);
        assert("created_at"@.len() == 10);
        assert("document_url"@.len() == 12);
        assert("hidden_at"@.len() == 9);
        assert("lesson_position"@.len() == 15);
        assert("level"@.len() == 5);
        assert("meaning_mnemonic"@.len() == 16);
        assert("meanings"@.len() == 8);
        assert("slug"@.len() == 4);
        assert("spaced_repetition_system_id"@.len() == 27);
        reveal_strlit("characters");
        assert("characters"@.len() == 10);
        assert("characters"@[1] != "created_at"@[1]);
        reveal_strlit("component_subject_ids");
        assert("component_subject_ids"@.len() == 21);
        reveal_strlit("context_sentences");
        assert("context_sentences"@.len() == 17);
        reveal_strlit("parts_of_speech");
        assert("parts_of_speech"@.len() == 15);
        assert("parts_of_speech"@[0] != "lesson_position"@[0]);
        reveal_strlit("pronunciation_audios");
        assert("pronunciation_audios"@.len() == 20);
        reveal_strlit("readings");
        assert("readings"@.len() == 8);
        assert("readings"@[0] != "meanings"@[0]);
        reveal_strlit("reading_mnemonic");
        assert("reading_mnemonic"@.len() == 16);
        assert("reading_mnemonic"@[0] != "meaning_mnemonic"@[0]);
        assert(f.len() == 17);
        lemma_obj_get_skips(f);
        assert(obj_get_v(f, "auxiliary_meanings"@) == Some(f[0].1));
        assert(obj_get_v(f, "created_at"@) == Some(f[1].1));
        assert(obj_get_v(f, "document_url"@) == Some(f[2].1));
        assert(obj_get_v(f, "hidden_at"@) == Some(f[3].1));
        assert(obj_get_v(f, "lesson_position"@) == Some(f[4].1));
        assert(obj_get_v(f, "level"@) == Some(f[5].1));
        assert(obj_get_v(f, "meaning_mnemonic"@) == Some(f[6].1));
        assert(obj_get_v(f, "meanings"@) == Some(f[7].1));
        assert(obj_get_v(f, "slug"@) == Some(f[8].1));
        assert(obj_get_v(f, "spaced_repetition_system_id"@) == Some(f[9].1));
        assert(obj_get_v(f, "characters"@) == Some(f[10].1));
        assert(obj_get_v(f, "component_subject_ids"@) == Some(f[11].1));
        assert(obj_get_v(f, "context_sentences"@) == Some(f[12].1));
        assert(obj_get_v(f, "parts_of_speech"@) == Some(f[13].1));
        assert(obj_get_v(f, "pronunciation_audios"@) == Some(f[14].1));
        assert(obj_get_v(f, "readings"@) == Some(f[15].1));
        assert(obj_get_v(f, "reading_mnemonic"@) == Some(f[16].1));
        lemma_payloads_round_trip::<AuxilliaryMeaning>(v.common.auxiliary_meanings);
        lemma_payloads_round_trip::<Meaning>(v.common.meanings);
        lemma_rfc3339_round_trip(v.common.created_at);
        match v.common.hidden_at {
            Some(t) => {
                lemma_rfc3339_round_trip(t);
            },
            None => {},
        }
        lemma_nums_round_trip(v.component_subject_ids);
        lemma_payloads_round_trip::<ContextSentence>(v.context_sentences);
        lemma_strs_round_trip(v.parts_of_speech);
        lemma_payloads_round_trip::<PronunciationAudio>(v.pronunciation_audios);
        lemma_payloads_round_trip::<VocabularyReading>(v.readings);
        assert(common_of_obj(f) == Some(v.common));
    }
}

/// A kana-only vocabulary word.
#[derive(Debug, Clone, PartialEq, Eq)]
pub struct KanaVocabulary {
    /// Attributes common to all subjects.
    pub common: SubjectCommon,
    /// The UTF-8 characters for the subject.
    pub characters: String,
    /// A collection of context sentences.
    pub context_sentences: Vec<ContextSentence>,
    /// Parts of speech.
    pub parts_of_speech: Vec<String>,
    /// A collection of pronunciation audio.
    pub pronunciation_audios: Vec<PronunciationAudio>,
}

/// The view of a [`KanaVocabulary`].
pub struct KanaVocabularyV {
    /// Attributes common to all subjects.
    pub common: SubjectCommonV,
    /// The UTF-8 characters for the subject.
    pub characters: Seq<char>,
    /// A collection of context sentences.
    pub context_sentences: Seq<ContextSentenceV>,
    /// Parts of speech.
    pub parts_of_speech: Seq<Seq<char>>,
    /// A collection of pronunciation audio.
    pub pronunciation_audios: Seq<PronunciationAudioV>,
}

impl JsonPayload for KanaVocabulary {
    type V = KanaVocabularyV;

    open spec fn deep(self) -> KanaVocabularyV {
        KanaVocabularyV { common: self.common.deep(), characters: self.characters@, context_sentences: self.context_sentences@.map_values(|x: ContextSentence| x.deep()), parts_of_speech: self.parts_of_speech@.map_values(|s: String| s@), pronunciation_audios: self.pronunciation_audios@.map_values(|x: PronunciationAudio| x.deep()) }
    }

    open spec fn v_wf(v: KanaVocabularyV) -> bool {
        subject_common_wf(v.common)
    }

    open spec fn to_json_v(v: KanaVocabularyV) -> JsonV {
        JsonV::Object(common_members(v.common) + seq![
            ("characters"@, JsonV::Str(v.characters)),
            ("context_sentences"@, JsonV::Array(payloads_to_json_v::<ContextSentence>(v.context_sentences))),
            ("parts_of_speech"@, JsonV::Array(v.parts_of_speech.map_values(|s: Seq<char>| JsonV::Str(s)))),
            ("pronunciation_audios"@, JsonV::Array(payloads_to_json_v::<PronunciationAudio>(v.pronunciation_audios))),
        ])
    }

    open spec fn of_json_v(j: JsonV) -> Option<KanaVocabularyV> {
        match j {
            JsonV::Object(f) => {
                match (common_of_obj(f), v_str(f, "characters"@), obj_get_v(f, "context_sentences"@), crate::codec::v_str_seq(f, "parts_of_speech"@), obj_get_v(f, "pronunciation_audios"@)) {
                    (Some(common), Some(characters), Some(JsonV::Array(context_sentences_elems)), Some(parts_of_speech), Some(JsonV::Array(pronunciation_audios_elems))) => match (payloads_of_json_v::<ContextSentence>(context_sentences_elems), payloads_of_json_v::<PronunciationAudio>(pronunciation_audios_elems)) { (Some(context_sentences), Some(pronunciation_audios)) => Some(KanaVocabularyV { common, characters, context_sentences, parts_of_speech, pronunciation_audios }), _ => None },
                    _ => None,
                }
            },
            _ => None,
        }
    }

    #[verifier::rlimit(100)]
    fn encode(&self) -> (r: JsonValue) {
        let mut fields: Vec<(String, JsonValue)> = Vec::new();
        push_subject_common(&mut fields, &self.common);
        push_field(&mut fields, "characters", JsonValue::of_string(&self.characters));
        push_field(&mut fields, "context_sentences", encode_payload_vec::<ContextSentence>(&self.context_sentences));
        push_field(&mut fields, "parts_of_speech", arr_strings(&self.parts_of_speech));
        proof {
            assert(self.parts_of_speech@.map_values(|s: String| JsonV::Str(s@))
                =~= self.parts_of_speech@.map_values(|s: String| s@).map_values(
                |s: Seq<char>| JsonV::Str(s),
            ));
        }
        push_field(&mut fields, "pronunciation_audios", encode_payload_vec::<PronunciationAudio>(&self.pronunciation_audios));
        proof {
            assert(fields_deep(fields@) =~= Self::to_json_v(self.deep())->Object_0);
            assert(forall|i: int| 0 <= i < fields@.len() ==> (#[trigger] fields@[i]).1.wf());
        }
        JsonValue::Object(fields)
    }

    fn decode(j: &JsonValue) -> (r: Result<Self, DecodeError>) {
        match j {
            JsonValue::Object(f) => {
                let common = match decode_subject_common(f) {
                    Ok(x) => x,
                    Err(e) => {
                        return Err(e);
                    },
                };
                let characters = match get_string(f, "characters") {
                    Ok(x) => x,
                    Err(e) => {
                        return Err(e);
                    },
                };
                let context_sentences: Vec<ContextSentence> = match obj_get(f, "context_sentences") {
                    Some(JsonValue::Array(elems)) => match decode_payload_vec::<ContextSentence>(elems) {
                        Ok(x) => x,
                        Err(e) => {
                            return Err(e);
                        },
                    },
                    _ => {
                        return Err(DecodeError);
                    },
                };
                let parts_of_speech = match get_string_vec(f, "parts_of_speech") {
                    Ok(x) => x,
                    Err(e) => {
                        return Err(e);
                    },
                };
                let pronunciation_audios: Vec<PronunciationAudio> = match obj_get(f, "pronunciation_audios") {
                    Some(JsonValue::Array(elems)) => match decode_payload_vec::<PronunciationAudio>(elems) {
                        Ok(x) => x,
                        Err(e) => {
                            return Err(e);
                        },
                    },
                    _ => {
                        return Err(DecodeError);
                    },
                };
                Ok(KanaVocabulary { common, characters, context_sentences, parts_of_speech, pronunciation_audios })
            },
            _ => Err(DecodeError),
        }
    }

    #[verifier::rlimit(100)]
    proof fn round_trip(v: KanaVocabularyV) {
        let f = Self::to_json_v(v)->Object_0;
        reveal_strlit("auxiliary_meanings");
        reveal_strlit("created_at");
        reveal_strlit("document_url");
        reveal_strlit("hidden_at");
        reveal_strlit("lesson_position");
        reveal_strlit("level");
        reveal_strlit("meaning_mnemonic");
        reveal_strlit("meanings");
        reveal_strlit("slug");
        reveal_strlit("spaced_repetition_system_id");
        assert("auxiliary_meanings"@.len() == 18);
        assert("created_at"@.len() == 10);
        assert("document_url"@.len() == 12);
        assert("hidden_at"@.len() == 9);
        assert("lesson_position"@.len() == 15);
        assert("level"@.len() == 5);
        assert("meaning_mnemonic"@.len() == 16);
        assert("meanings"@.len() == 8);
        assert("slug"@.len() == 4);
        assert("spaced_repetition_system_id"@.len() == 27);
        reveal_strlit("characters");
        assert("characters"@.len() == 10);
        assert("characters"@[1] != "created_at"@[1]);
        reveal_strlit("context_sentences");
        assert("context_sentences"@.len() == 17);
        reveal_strlit("parts_of_speech");
        assert("parts_of_speech"@.len() == 15);
        assert("parts_of_speech"@[0] != "lesson_position"@[0]);
        reveal_strlit("pronunciation_audios");
        assert("pronunciation_audios"@.len() == 20);
        assert(f.len() == 14);
        lemma_obj_get_skips(f);
        assert(obj_get_v(f, "auxiliary_meanings"@) == Some(f[0].1));
        assert(obj_get_v(f, "created_at"@) == Some(f[1].1));
        assert(obj_get_v(f, "document_url"@) == Some(f[2].1));
        assert(obj_get_v(f, "hidden_at"@) == Some(f[3].1));
        assert(obj_get_v(f, "lesson_position"@) == Some(f[4].1));
        assert(obj_get_v(f, "level"@) == Some(f[5].1));
        assert(obj_get_v(f, "meaning_mnemonic"@) == Some(f[6].1));
        assert(obj_get_v(f, "meanings"@) == Some(f[7].1));
        assert(obj_get_v(f, "slug"@) == Some(f[8].1));
        assert(obj_get_v(f, "spaced_repetition_system_id"@) == Some(f[9].1));
        assert(obj_get_v(f, "characters"@) == Some(f[10].1));
        assert(obj_get_v(f, "context_sentences"@) == Some(f[11].1));
        assert(obj_get_v(f, "parts_of_speech"@) == Some(f[12].1));
        assert(obj_get_v(f, "pronunciation_audios"@) == Some(f[13].1));
        lemma_payloads_round_trip::<AuxilliaryMeaning>(v.common.auxiliary_meanings);
        lemma_payloads_round_trip::<Meaning>(v.common.meanings);
        lemma_rfc3339_round_trip(v.common.created_at);
        match v.common.hidden_at {
            Some(t) => {
                lemma_rfc3339_round_trip(t);
            },
            None => {},
        }
        lemma_payloads_round_trip::<ContextSentence>(v.context_sentences);
        lemma_strs_round_trip(v.parts_of_speech);
        lemma_payloads_round_trip::<PronunciationAudio>(v.pronunciation_audios);
        assert(common_of_obj(f) == Some(v.common));
    }
}

/// The `FetchSubject` trait marks the types a specific subject can be
/// requested as: the untagged aggregation, or one of the four concrete
/// shapes.
pub trait FetchSubject: JsonPayload {

}

impl FetchSubject for Radical {

}

impl FetchSubject for Kanji {

}

impl FetchSubject for Vocabulary {

}

impl FetchSubject for KanaVocabulary {

}

/// Aggregation of assorted subject types to allow containing multiple
/// subject types in one collection.  The wire format is untagged: decoding
/// tries radical, kanji, vocabulary and kana vocabulary in that order.
#[derive(Debug, Clone, PartialEq, Eq)]
pub enum Subject {
    /// A Radical
    Radical(Radical),
    /// A Kanji
    Kanji(Kanji),
    /// A Vocabulary word
    Vocabulary(Vocabulary),
    /// A kana-only vocabulary word
    KanaVocabulary(KanaVocabulary),
}

/// The view of a [`Subject`].
pub enum SubjectV {
    /// A radical.
    Radical(RadicalV),
    /// A kanji.
    Kanji(KanjiV),
    /// A vocabulary word.
    Vocabulary(VocabularyV),
    /// A kana-only vocabulary word.
    KanaVocabulary(KanaVocabularyV),
}

impl JsonPayload for Subject {
    type V = SubjectV;

    open spec fn deep(self) -> SubjectV {
        match self {
            Subject::Radical(x) => SubjectV::Radical(x.deep()),
            Subject::Kanji(x) => SubjectV::Kanji(x.deep()),
            Subject::Vocabulary(x) => SubjectV::Vocabulary(x.deep()),
            Subject::KanaVocabulary(x) => SubjectV::KanaVocabulary(x.deep()),
        }
    }

    open spec fn v_wf(v: SubjectV) -> bool {
        match v {
            SubjectV::Radical(x) => Radical::v_wf(x),
            SubjectV::Kanji(x) => Kanji::v_wf(x),
            SubjectV::Vocabulary(x) => Vocabulary::v_wf(x),
            SubjectV::KanaVocabulary(x) => KanaVocabulary::v_wf(x),
        }
    }

    open spec fn to_json_v(v: SubjectV) -> JsonV {
        match v {
            SubjectV::Radical(x) => Radical::to_json_v(x),
            SubjectV::Kanji(x) => Kanji::to_json_v(x),
            SubjectV::Vocabulary(x) => Vocabulary::to_json_v(x),
            SubjectV::KanaVocabulary(x) => KanaVocabulary::to_json_v(x),
        }
    }

    open spec fn of_json_v(j: JsonV) -> Option<SubjectV> {
        match Radical::of_json_v(j) {
            Some(x) => Some(SubjectV::Radical(x)),
            None => match Kanji::of_json_v(j) {
                Some(x) => Some(SubjectV::Kanji(x)),
                None => match Vocabulary::of_json_v(j) {
                    Some(x) => Some(SubjectV::Vocabulary(x)),
                    None => match KanaVocabulary::of_json_v(j) {
                        Some(x) => Some(SubjectV::KanaVocabulary(x)),
                        None => None,
                    },
                },
            },
        }
    }

    fn encode(&self) -> (r: JsonValue) {
        match self {
            Subject::Radical(x) => x.encode(),
            Subject::Kanji(x) => x.encode(),
            Subject::Vocabulary(x) => x.encode(),
            Subject::KanaVocabulary(x) => x.encode(),
        }
    }

    fn decode(j: &JsonValue) -> (r: Result<Self, DecodeError>) {
        match Radical::decode(j) {
            Ok(x) => Ok(Subject::Radical(x)),
            Err(_) => match Kanji::decode(j) {
                Ok(x) => Ok(Subject::Kanji(x)),
                Err(_) => match Vocabulary::decode(j) {
                    Ok(x) => Ok(Subject::Vocabulary(x)),
                    Err(_) => match KanaVocabulary::decode(j) {
                        Ok(x) => Ok(Subject::KanaVocabulary(x)),
                        Err(e) => Err(e),
                    },
                },
            },
        }
    }

    proof fn round_trip(v: SubjectV) {
        match v {
            SubjectV::Radical(x) => {
                Radical::round_trip(x);
            },
            SubjectV::Kanji(x) => {
                Kanji::round_trip(x);
                lemma_radical_rejects_kanji(x);
            },
            SubjectV::Vocabulary(x) => {
                Vocabulary::round_trip(x);
                lemma_radical_rejects_vocabulary(x);
                lemma_kanji_rejects_vocabulary(x);
            },
            SubjectV::KanaVocabulary(x) => {
                KanaVocabulary::round_trip(x);
                lemma_radical_rejects_kana(x);
                lemma_kanji_rejects_kana(x);
                lemma_vocabulary_rejects_kana(x);
            },
        }
    }
}

impl FetchSubject for Subject {

}

proof fn lemma_common_key_lens()
    ensures
        "auxiliary_meanings"@.len() == 18,
        "created_at"@.len() == 10,
        "document_url"@.len() == 12,
        "hidden_at"@.len() == 9,
        "lesson_position"@.len() == 15,
        "level"@.len() == 5,
        "meaning_mnemonic"@.len() == 16,
        "meanings"@.len() == 8,
        "slug"@.len() == 4,
        "spaced_repetition_system_id"@.len() == 27,
{
    reveal_strlit("auxiliary_meanings");
    reveal_strlit("created_at");
    reveal_strlit("document_url");
    reveal_strlit("hidden_at");
    reveal_strlit("lesson_position");
    reveal_strlit("level");
    reveal_strlit("meaning_mnemonic");
    reveal_strlit("meanings");
    reveal_strlit("slug");
    reveal_strlit("spaced_repetition_system_id");
}

/// A kanji payload does not decode as a radical: it has no
/// `character_images` member.
#[verifier::rlimit(100)]
pub proof fn lemma_radical_rejects_kanji(x: KanjiV)
    ensures
        Radical::of_json_v(Kanji::to_json_v(x)) is None,
{
    let f = Kanji::to_json_v(x)->Object_0;
    lemma_common_key_lens();
    reveal_strlit("amalgamation_subject_ids");
    reveal_strlit("characters");
    reveal_strlit("component_subject_ids");
    reveal_strlit("meaning_hint");
    reveal_strlit("reading_hint");
    reveal_strlit("reading_mnemonic");
    reveal_strlit("readings");
    reveal_strlit("visually_similar_subject_ids");
    reveal_strlit("character_images");
    reveal_strlit("meaning_mnemonic");
    assert("amalgamation_subject_ids"@.len() == 24);
    assert("characters"@.len() == 10);
    assert("component_subject_ids"@.len() == 21);
    assert("meaning_hint"@.len() == 12);
    assert("reading_hint"@.len() == 12);
    assert("reading_mnemonic"@.len() == 16);
    assert("readings"@.len() == 8);
    assert("visually_similar_subject_ids"@.len() == 28);
    assert("character_images"@.len() == 16);
    assert("character_images"@[0] != "meaning_mnemonic"@[0]);
    assert("character_images"@[0] != "reading_mnemonic"@[0]);
    assert(f.len() == 18);
    lemma_obj_get_skips(f);
    assert(obj_get_v(f, "character_images"@) is None);
}

/// A vocabulary payload does not decode as a radical: it has no
/// `character_images` member.
#[verifier::rlimit(100)]
pub proof fn lemma_radical_rejects_vocabulary(x: VocabularyV)
    ensures
        Radical::of_json_v(Vocabulary::to_json_v(x)) is None,
{
    let f = Vocabulary::to_json_v(x)->Object_0;
    lemma_common_key_lens();
    reveal_strlit("characters");
    reveal_strlit("component_subject_ids");
    reveal_strlit("context_sentences");
    reveal_strlit("parts_of_speech");
    reveal_strlit("pronunciation_audios");
    reveal_strlit("readings");
    reveal_strlit("reading_mnemonic");
    reveal_strlit("character_images");
    reveal_strlit("meaning_mnemonic");
    assert("characters"@.len() == 10);
    assert("component_subject_ids"@.len() == 21);
    assert("context_sentences"@.len() == 17);
    assert("parts_of_speech"@.len() == 15);
    assert("pronunciation_audios"@.len() == 20);
    assert("readings"@.len() == 8);
    assert("reading_mnemonic"@.len() == 16);
    assert("character_images"@.len() == 16);
    assert("character_images"@[0] != "meaning_mnemonic"@[0]);
    assert("character_images"@[0] != "reading_mnemonic"@[0]);
    assert(f.len() == 17);
    lemma_obj_get_skips(f);
    assert(obj_get_v(f, "character_images"@) is None);
}

/// A kana-vocabulary payload does not decode as a radical: it has no
/// `character_images` member.
#[verifier::rlimit(100)]
pub proof fn lemma_radical_rejects_kana(x: KanaVocabularyV)
    ensures
        Radical::of_json_v(KanaVocabulary::to_json_v(x)) is None,
{
    let f = KanaVocabulary::to_json_v(x)->Object_0;
    lemma_common_key_lens();
    reveal_strlit("characters");
    reveal_strlit("context_sentences");
    reveal_strlit("parts_of_speech");
    reveal_strlit("pronunciation_audios");
    reveal_strlit("character_images");
    reveal_strlit("meaning_mnemonic");
    assert("characters"@.len() == 10);
    assert("context_sentences"@.len() == 17);
    assert("parts_of_speech"@.len() == 15);
    assert("pronunciation_audios"@.len() == 20);
    assert("character_images"@.len() == 16);
    assert("character_images"@[0] != "meaning_mnemonic"@[0]);
    assert(f.len() == 14);
    lemma_obj_get_skips(f);
    assert(obj_get_v(f, "character_images"@) is None);
}

/// A vocabulary payload does not decode as a kanji: it has no
/// `visually_similar_subject_ids` member.
#[verifier::rlimit(100)]
pub proof fn lemma_kanji_rejects_vocabulary(x: VocabularyV)
    ensures
        Kanji::of_json_v(Vocabulary::to_json_v(x)) is None,
{
    let f = Vocabulary::to_json_v(x)->Object_0;
    lemma_common_key_lens();
    reveal_strlit("characters");
    reveal_strlit("component_subject_ids");
    reveal_strlit("context_sentences");
    reveal_strlit("parts_of_speech");
    reveal_strlit("pronunciation_audios");
    reveal_strlit("readings");
    reveal_strlit("reading_mnemonic");
    reveal_strlit("visually_similar_subject_ids");
    assert("characters"@.len() == 10);
    assert("component_subject_ids"@.len() == 21);
    assert("context_sentences"@.len() == 17);
    assert("parts_of_speech"@.len() == 15);
    assert("pronunciation_audios"@.len() == 20);
    assert("readings"@.len() == 8);
    assert("reading_mnemonic"@.len() == 16);
    assert("visually_similar_subject_ids"@.len() == 28);
    assert(f.len() == 17);
    lemma_obj_get_skips(f);
    assert(obj_get_v(f, "visually_similar_subject_ids"@) is None);
}

/// A kana-vocabulary payload does not decode as a kanji: it has no
/// `visually_similar_subject_ids` member.
#[verifier::rlimit(100)]
pub proof fn lemma_kanji_rejects_kana(x: KanaVocabularyV)
    ensures
        Kanji::of_json_v(KanaVocabulary::to_json_v(x)) is None,
{
    let f = KanaVocabulary::to_json_v(x)->Object_0;
    lemma_common_key_lens();
    reveal_strlit("characters");
    reveal_strlit("context_sentences");
    reveal_strlit("parts_of_speech");
    reveal_strlit("pronunciation_audios");
    reveal_strlit("visually_similar_subject_ids");
    assert("characters"@.len() == 10);
    assert("context_sentences"@.len() == 17);
    assert("parts_of_speech"@.len() == 15);
    assert("pronunciation_audios"@.len() == 20);
    assert("visually_similar_subject_ids"@.len() == 28);
    assert(f.len() == 14);
    lemma_obj_get_skips(f);
    assert(obj_get_v(f, "visually_similar_subject_ids"@) is None);
}

/// A kana-vocabulary payload does not decode as a vocabulary: it has no
/// `component_subject_ids` member.
#[verifier::rlimit(100)]
pub proof fn lemma_vocabulary_rejects_kana(x: KanaVocabularyV)
    ensures
        Vocabulary::of_json_v(KanaVocabulary::to_json_v(x)) is None,
{
    let f = KanaVocabulary::to_json_v(x)->Object_0;
    lemma_common_key_lens();
    reveal_strlit("characters");
    reveal_strlit("context_sentences");
    reveal_strlit("parts_of_speech");
    reveal_strlit("pronunciation_audios");
    reveal_strlit("component_subject_ids");
    assert("characters"@.len() == 10);
    assert("context_sentences"@.len() == 17);
    assert("parts_of_speech"@.len() == 15);
    assert("pronunciation_audios"@.len() == 20);
    assert("component_subject_ids"@.len() == 21);
    assert(f.len() == 14);
    lemma_obj_get_skips(f);
    assert(obj_get_v(f, "component_subject_ids"@) is None);
}

/// The generic and the concrete decode agree: when the untagged subject
/// decode lands on a variant, the matching concrete decode of the same tree
/// yields exactly that payload.
pub proof fn lemma_subject_concrete_agreement(j: JsonV)
    ensures
        Subject::of_json_v(j) matches Some(SubjectV::Radical(x)) ==> Radical::of_json_v(j)
            == Some(x),
        Subject::of_json_v(j) matches Some(SubjectV::Kanji(x)) ==> Kanji::of_json_v(j) == Some(
            x,
        ),
        Subject::of_json_v(j) matches Some(SubjectV::Vocabulary(x)) ==> Vocabulary::of_json_v(
            j,
        ) == Some(x),
        Subject::of_json_v(j) matches Some(SubjectV::KanaVocabulary(x))
            ==> KanaVocabulary::of_json_v(j) == Some(x),
{
}

} // verus!
