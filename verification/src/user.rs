//! The user summary returns basic information for the user making the API
//! request, identified by their API key.

use vstd::prelude::*;

use crate::assignment::{opt_wf, opt_time_v, lemma_opt_time_round_trip};
use crate::codec::{
    DecodeError, v_str, v_u32, v_bool, v_opt_time, v_time, get_string, get_u32, get_bool,
    get_opt_time, get_time, time_json, opt_time_json,
};
use crate::json::{JsonValue, JsonV, obj_get_v, obj_get, push_field, fields_deep};
use crate::resource::{JsonPayload, lemma_obj_get_skips};
use crate::timestamp::{Timestamp, rfc3339, lemma_rfc3339_round_trip};

verus! {

/// The order in which lessons are presented.
#[derive(Debug, Clone, Copy, PartialEq, Eq, Structural)]
pub enum LessonPresentationOrder {
    /// Lessons are presented in order of level, then by subject `id`.
    AscendingLevelThenSubject,
    /// Lessons are presented in a random order.
    Shuffled,
    /// Lessons are presented in order of level, then randomly.
    AscendingLevelThenShuffled,
}

impl Default for LessonPresentationOrder {
    /// The order the API assumes when none is chosen.
    fn default() -> (r: LessonPresentationOrder)
        ensures
            r == LessonPresentationOrder::AscendingLevelThenSubject,
    {
        LessonPresentationOrder::AscendingLevelThenSubject
    }
}

/// The tag under which a presentation order appears on the wire.
pub open spec fn order_name(o: LessonPresentationOrder) -> Seq<char> {
    match o {
        LessonPresentationOrder::AscendingLevelThenSubject => "ascending_level_then_subject"@,
        LessonPresentationOrder::Shuffled => "shuffled"@,
        LessonPresentationOrder::AscendingLevelThenShuffled => "ascending_level_then_shuffled"@,
    }
}

/// The presentation order a wire tag names, if any.
pub open spec fn order_of_name(s: Seq<char>) -> Option<LessonPresentationOrder> {
    if s == "ascending_level_then_subject"@ {
        Some(LessonPresentationOrder::AscendingLevelThenSubject)
    } else if s == "shuffled"@ {
        Some(LessonPresentationOrder::Shuffled)
    } else if s == "ascending_level_then_shuffled"@ {
        Some(LessonPresentationOrder::AscendingLevelThenShuffled)
    } else {
        None
    }
}

/// Every wire tag names back the order it was written for.
pub proof fn lemma_order_name_round_trip(o: LessonPresentationOrder)
    ensures
        order_of_name(order_name(o)) == Some(o),
{
    reveal_strlit("ascending_level_then_subject");
    reveal_strlit("shuffled");
    reveal_strlit("ascending_level_then_shuffled");
    assert("ascending_level_then_subject"@.len() == 28);
    assert("shuffled"@.len() == 8);
    assert("ascending_level_then_shuffled"@.len() == 29);
}

impl LessonPresentationOrder {
    /// Writes the wire tag for this order.
    pub fn to_string(&self) -> (r: String)
        ensures
            r@ == order_name(*self),
    {
        match self {
            LessonPresentationOrder::AscendingLevelThenSubject => {
                "ascending_level_then_subject".to_owned()
            },
            LessonPresentationOrder::Shuffled => "shuffled".to_owned(),
            LessonPresentationOrder::AscendingLevelThenShuffled => {
                "ascending_level_then_shuffled".to_owned()
            },
        }
    }

    /// Reads a wire tag.
    pub fn from_name(s: &str) -> (r: Option<LessonPresentationOrder>)
        ensures
            r == order_of_name(s@),
    {
        if crate::codec::str_eq(s, "ascending_level_then_subject") {
            Some(LessonPresentationOrder::AscendingLevelThenSubject)
        } else if crate::codec::str_eq(s, "shuffled") {
            Some(LessonPresentationOrder::Shuffled)
        } else if crate::codec::str_eq(s, "ascending_level_then_shuffled") {
            Some(LessonPresentationOrder::AscendingLevelThenShuffled)
        } else {
            None
        }
    }
}

/// Defines the kind of subscription a user has.
#[derive(Debug, Clone, Copy, PartialEq, Eq, Structural)]
pub enum SubscriptionType {
    /// Free subscriptions aren't really subscriptions, but can represent
    /// people who've never subscribed or have an inactive subscription.
    Free,
    /// Recurring subscriptions renew on a periodic basis.
    Recurring,
    /// Lifetime means the user can access WaniKani forever.
    Lifetime,
    /// Unknown means the user subscription state isn't exactly known. This
    /// is a weird state on WaniKani, should be treated as `free`, and
    /// reported to the WaniKani developers.
    Unknown,
}

/// The tag under which a subscription type appears on the wire.
pub open spec fn subscription_type_name(t: SubscriptionType) -> Seq<char> {
    match t {
        SubscriptionType::Free => "free"@,
        SubscriptionType::Recurring => "recurring"@,
        SubscriptionType::Lifetime => "lifetime"@,
        SubscriptionType::Unknown => "unknown"@,
    }
}

/// The subscription type a wire tag names, if any.
pub open spec fn subscription_type_of_name(s: Seq<char>) -> Option<SubscriptionType> {
    if s == "free"@ {
        Some(SubscriptionType::Free)
    } else if s == "recurring"@ {
        Some(SubscriptionType::Recurring)
    } else if s == "lifetime"@ {
        Some(SubscriptionType::Lifetime)
    } else if s == "unknown"@ {
        Some(SubscriptionType::Unknown)
    } else {
        None
    }
}

/// Every wire tag names back the subscription type it was written for.
pub proof fn lemma_subscription_type_name_round_trip(t: SubscriptionType)
    ensures
        subscription_type_of_name(subscription_type_name(t)) == Some(t),
{
    reveal_strlit("free");
    reveal_strlit("recurring");
    reveal_strlit("lifetime");
    reveal_strlit("unknown");
    assert("free"@.len() == 4);
    assert("recurring"@.len() == 9);
    assert("lifetime"@.len() == 8);
    assert("unknown"@.len() == 7);
}

impl SubscriptionType {
    /// Writes the wire tag for this subscription type.
    pub fn to_string(&self) -> (r: String)
        ensures
            r@ == subscription_type_name(*self),
    {
        match self {
            SubscriptionType::Free => "free".to_owned(),
            SubscriptionType::Recurring => "recurring".to_owned(),
            SubscriptionType::Lifetime => "lifetime".to_owned(),
            SubscriptionType::Unknown => "unknown".to_owned(),
        }
    }

    /// Reads a wire tag.
    pub fn from_name(s: &str) -> (r: Option<SubscriptionType>)
        ensures
            r == subscription_type_of_name(s@),
    {
        if crate::codec::str_eq(s, "free") {
            Some(SubscriptionType::Free)
        } else if crate::codec::str_eq(s, "recurring") {
            Some(SubscriptionType::Recurring)
        } else if crate::codec::str_eq(s, "lifetime") {
            Some(SubscriptionType::Lifetime)
        } else if crate::codec::str_eq(s, "unknown") {
            Some(SubscriptionType::Unknown)
        } else {
            None
        }
    }
}

/// User settings specific to the WaniKani application.
#[derive(Debug, Clone, Copy, PartialEq, Eq)]
pub struct Preferences {
    /// The voice actor to be used for lessons and reviews. The value is
    /// associated to `subject.pronunciation_audios.metadata.voice_actor_id`.
    pub default_voice_actor_id: u32,
    /// Automatically play pronunciation audio for vocabulary during extra
    /// study.
    pub extra_study_autoplay_audio: bool,
    /// Automatically play pronunciation audio for vocabulary during
    /// lessons.
    pub lessons_autoplay_audio: bool,
    /// Number of subjects introduced to the user during lessons before
    /// quizzing.
    pub lessons_batch_size: u32,
    /// The order in which lessons are presented.
    pub lessons_presentation_order: LessonPresentationOrder,
    /// Automatically play pronunciation audio for vocabulary during
    /// reviews.
    pub reviews_autoplay_audio: bool,
    /// Toggle for display SRS change indicator after a subject has been
    /// completely answered during review.
    pub reviews_display_srs_indicator: bool,
}

/// User preference updates.  Only fields explicitly set are serialized;
/// the server leaves the others unchanged.
#[derive(Debug, Clone, Copy, PartialEq, Eq)]
pub struct UpdatePreferences {
    /// The voice actor to be used for lessons and reviews.
    pub default_voice_actor_id: Option<u32>,
    /// Automatically play pronunciation audio for vocabulary during extra
    /// study.
    pub extra_study_autoplay_audio: Option<bool>,
    /// Automatically play pronunciation audio for vocabulary during
    /// lessons.
    pub lessons_autoplay_audio: Option<bool>,
    /// Number of subjects introduced to the user during lessons before
    /// quizzing.
    pub lessons_batch_size: Option<u32>,
    /// The order in which lessons are presented.
    pub lessons_presentation_order: Option<LessonPresentationOrder>,
    /// Automatically play pronunciation audio for vocabulary during
    /// reviews.
    pub reviews_autoplay_audio: Option<bool>,
    /// Toggle for display SRS change indicator after a subject has been
    /// completely answered during review.
    pub reviews_display_srs_indicator: Option<bool>,
}

impl UpdatePreferences {
    /// An update with every field unset.
    pub fn new() -> (r: UpdatePreferences)
        ensures
            r == (UpdatePreferences {
                default_voice_actor_id: None,
                extra_study_autoplay_audio: None,
                lessons_autoplay_audio: None,
                lessons_batch_size: None,
                lessons_presentation_order: None,
                reviews_autoplay_audio: None,
                reviews_display_srs_indicator: None,
            }),
    {
        UpdatePreferences {
            default_voice_actor_id: None,
            extra_study_autoplay_audio: None,
            lessons_autoplay_audio: None,
            lessons_batch_size: None,
            lessons_presentation_order: None,
            reviews_autoplay_audio: None,
            reviews_display_srs_indicator: None,
        }
    }

    /// An update that sets every preference to its current value.
    pub fn from(value: &Preferences) -> (r: UpdatePreferences)
        ensures
            r == update_of_preferences(*value),
    {
        UpdatePreferences {
            default_voice_actor_id: Some(value.default_voice_actor_id),
            extra_study_autoplay_audio: Some(value.extra_study_autoplay_audio),
            lessons_autoplay_audio: Some(value.lessons_autoplay_audio),
            lessons_batch_size: Some(value.lessons_batch_size),
            lessons_presentation_order: Some(value.lessons_presentation_order),
            reviews_autoplay_audio: Some(value.reviews_autoplay_audio),
            reviews_display_srs_indicator: Some(value.reviews_display_srs_indicator),
        }
    }

    /// Writes the update: each member appears exactly when its field is
    /// set, in declaration order; unset fields are omitted entirely, not
    /// written as `null`.
    pub fn encode(&self) -> (r: JsonValue)
        ensures
            r.deep() == update_preferences_to_json(*self),
            r.wf(),
    {
        let mut fields: Vec<(String, JsonValue)> = self.encode_first_members();
        let mut rest: Vec<(String, JsonValue)> = self.encode_last_members();
        proof {
            crate::json::lemma_fields_deep_concat(fields@, rest@);
        }
        let ghost fa = fields@;
        let ghost fb = rest@;
        fields.append(&mut rest);
        proof {
            assert(fields@ == fa + fb);
            assert(fields_deep(fields@) =~= update_preferences_to_json(*self)->Object_0);
            assert(forall|i: int| 0 <= i < fields@.len() ==> (#[trigger] fields@[i]).1.wf());
        }
        JsonValue::Object(fields)
    }

    #[verifier::rlimit(100)]
    fn encode_first_members(&self) -> (fields: Vec<(String, JsonValue)>)
        ensures
            fields_deep(fields@) == opt_num_member(
                "default_voice_actor_id"@,
                self.default_voice_actor_id,
            ) + opt_bool_member("extra_study_autoplay_audio"@, self.extra_study_autoplay_audio)
                + opt_bool_member("lessons_autoplay_audio"@, self.lessons_autoplay_audio)
                + opt_num_member("lessons_batch_size"@, self.lessons_batch_size),
            forall|i: int| 0 <= i < fields@.len() ==> (#[trigger] fields@[i]).1.wf(),
    {
        let mut fields: Vec<(String, JsonValue)> = Vec::new();
        let ghost mut done: Seq<(Seq<char>, JsonV)> = Seq::empty();
        proof {
            assert(fields_deep(fields@) =~= done);
        }
        match &self.default_voice_actor_id {
            Some(v) => {
                push_field(&mut fields, "default_voice_actor_id", JsonValue::of_u64(*v as u64));
            },
            None => {},
        }
        proof {
            done = done + opt_num_member("default_voice_actor_id"@, self.default_voice_actor_id);
            assert(fields_deep(fields@) =~= done);
        }
        match &self.extra_study_autoplay_audio {
            Some(v) => {
                push_field(&mut fields, "extra_study_autoplay_audio", JsonValue::Bool(*v));
            },
            None => {},
        }
        proof {
            done = done + opt_bool_member(
                "extra_study_autoplay_audio"@,
                self.extra_study_autoplay_audio,
            );
            assert(fields_deep(fields@) =~= done);
        }
        match &self.lessons_autoplay_audio {
            Some(v) => {
                push_field(&mut fields, "lessons_autoplay_audio", JsonValue::Bool(*v));
            },
            None => {},
        }
        proof {
            done = done + opt_bool_member("lessons_autoplay_audio"@, self.lessons_autoplay_audio);
            assert(fields_deep(fields@) =~= done);
        }
        match &self.lessons_batch_size {
            Some(v) => {
                push_field(&mut fields, "lessons_batch_size", JsonValue::of_u64(*v as u64));
            },
            None => {},
        }
        proof {
            done = done + opt_num_member("lessons_batch_size"@, self.lessons_batch_size);
            assert(fields_deep(fields@) =~= done);
        }
        fields
    }

    #[verifier::rlimit(100)]
    fn encode_last_members(&self) -> (fields: Vec<(String, JsonValue)>)
        ensures
            fields_deep(fields@) == opt_order_member(
                "lessons_presentation_order"@,
                self.lessons_presentation_order,
            ) + opt_bool_member("reviews_autoplay_audio"@, self.reviews_autoplay_audio)
                + opt_bool_member(
                "reviews_display_srs_indicator"@,
                self.reviews_display_srs_indicator,
            ),
            forall|i: int| 0 <= i < fields@.len() ==> (#[trigger] fields@[i]).1.wf(),
    {
        let mut fields: Vec<(String, JsonValue)> = Vec::new();
        let ghost mut done: Seq<(Seq<char>, JsonV)> = Seq::empty();
        proof {
            assert(fields_deep(fields@) =~= done);
        }
        match &self.lessons_presentation_order {
            Some(v) => {
                push_field(&mut fields, "lessons_presentation_order", JsonValue::Str(v.to_string()));
            },
            None => {},
        }
        proof {
            done = done + opt_order_member(
                "lessons_presentation_order"@,
                self.lessons_presentation_order,
            );
            assert(fields_deep(fields@) =~= done);
        }
        match &self.reviews_autoplay_audio {
            Some(v) => {
                push_field(&mut fields, "reviews_autoplay_audio", JsonValue::Bool(*v));
            },
            None => {},
        }
        proof {
            done = done + opt_bool_member("reviews_autoplay_audio"@, self.reviews_autoplay_audio);
            assert(fields_deep(fields@) =~= done);
        }
        match &self.reviews_display_srs_indicator {
            Some(v) => {
                push_field(&mut fields, "reviews_display_srs_indicator", JsonValue::Bool(*v));
            },
            None => {},
        }
        proof {
            done = done + opt_bool_member(
                "reviews_display_srs_indicator"@,
                self.reviews_display_srs_indicator,
            );
            assert(fields_deep(fields@) =~= done);
        }
        fields
    }
}

/// The update that re-states every current preference.
pub open spec fn update_of_preferences(p: Preferences) -> UpdatePreferences {
    UpdatePreferences {
        default_voice_actor_id: Some(p.default_voice_actor_id),
        extra_study_autoplay_audio: Some(p.extra_study_autoplay_audio),
        lessons_autoplay_audio: Some(p.lessons_autoplay_audio),
        lessons_batch_size: Some(p.lessons_batch_size),
        lessons_presentation_order: Some(p.lessons_presentation_order),
        reviews_autoplay_audio: Some(p.reviews_autoplay_audio),
        reviews_display_srs_indicator: Some(p.reviews_display_srs_indicator),
    }
}

/// A member present only when the field is set.
pub open spec fn opt_num_member(key: Seq<char>, v: Option<u32>) -> Seq<(Seq<char>, JsonV)> {
    match v {
        Some(x) => seq![(key, JsonV::Num(x as int))],
        None => Seq::empty(),
    }
}

/// A member present only when the field is set.
pub open spec fn opt_bool_member(key: Seq<char>, v: Option<bool>) -> Seq<(Seq<char>, JsonV)> {
    match v {
        Some(x) => seq![(key, JsonV::Bool(x))],
        None => Seq::empty(),
    }
}

/// A member present only when the field is set.
pub open spec fn opt_order_member(key: Seq<char>, v: Option<LessonPresentationOrder>) -> Seq<
    (Seq<char>, JsonV),
> {
    match v {
        Some(x) => seq![(key, JsonV::Str(order_name(x)))],
        None => Seq::empty(),
    }
}

/// The body of a preference update: exactly the set fields, in declaration
/// order; an unset field does not appear, not even as `null`.
pub open spec fn update_preferences_to_json(u: UpdatePreferences) -> JsonV {
    JsonV::Object(
        opt_num_member("default_voice_actor_id"@, u.default_voice_actor_id) + opt_bool_member(
            "extra_study_autoplay_audio"@,
            u.extra_study_autoplay_audio,
        ) + opt_bool_member("lessons_autoplay_audio"@, u.lessons_autoplay_audio)
            + opt_num_member("lessons_batch_size"@, u.lessons_batch_size) + opt_order_member(
            "lessons_presentation_order"@,
            u.lessons_presentation_order,
        ) + opt_bool_member("reviews_autoplay_audio"@, u.reviews_autoplay_audio)
            + opt_bool_member(
            "reviews_display_srs_indicator"@,
            u.reviews_display_srs_indicator,
        ),
    )
}

/// User information update request.
#[derive(Debug, Clone, Copy, PartialEq, Eq)]
pub struct UpdateUser {
    /// Preference updates.
    pub preferences: UpdatePreferences,
}

/// The body of a user update: the preference members under the single
/// `preferences` key.
pub open spec fn update_user_to_json(u: UpdateUser) -> JsonV {
    JsonV::Object(seq![("preferences"@, update_preferences_to_json(u.preferences))])
}

impl UpdateUser {
    /// Writes the update body: only the set preference fields appear, under
    /// the `preferences` key.
    pub fn encode(&self) -> (r: JsonValue)
        ensures
            r.deep() == update_user_to_json(*self),
            r.wf(),
    {
        let mut fields: Vec<(String, JsonValue)> = Vec::new();
        push_field(&mut fields, "preferences", self.preferences.encode());
        proof {
            assert(fields_deep(fields@) =~= update_user_to_json(*self)->Object_0);
            assert(forall|i: int| 0 <= i < fields@.len() ==> (#[trigger] fields@[i]).1.wf());
        }
        JsonValue::Object(fields)
    }
}

/// A user update with a single set field serializes to exactly one member
/// under the `preferences` key, and nothing else.
pub proof fn lemma_single_field_update(u: UpdateUser, batch: u32)
    requires
        u.preferences == (UpdatePreferences {
            default_voice_actor_id: None,
            extra_study_autoplay_audio: None,
            lessons_autoplay_audio: None,
            lessons_batch_size: Some(batch),
            lessons_presentation_order: None,
            reviews_autoplay_audio: None,
            reviews_display_srs_indicator: None,
        }),
    ensures
        update_user_to_json(u) == JsonV::Object(
            seq![
                (
                    "preferences"@,
                    JsonV::Object(seq![("lessons_batch_size"@, JsonV::Num(batch as int))]),
                ),
            ],
        ),
{
    assert(update_preferences_to_json(u.preferences)->Object_0 =~= seq![
        ("lessons_batch_size"@, JsonV::Num(batch as int)),
    ]);
}

/// The order a presentation order gives to a pair of subjects, given two
/// random draws for the shuffled cases: by level then lesson position, by
/// level then the draws, or by the draws alone.
pub open spec fn order_subjects_spec(
    o: LessonPresentationOrder,
    a_level: u32,
    a_position: u32,
    b_level: u32,
    b_position: u32,
    tie_a: u32,
    tie_b: u32,
) -> core::cmp::Ordering {
    match o {
        LessonPresentationOrder::AscendingLevelThenSubject => {
            if a_level < b_level {
                core::cmp::Ordering::Less
            } else if a_level > b_level {
                core::cmp::Ordering::Greater
            } else if a_position < b_position {
                core::cmp::Ordering::Less
            } else if a_position > b_position {
                core::cmp::Ordering::Greater
            } else {
                core::cmp::Ordering::Equal
            }
        },
        LessonPresentationOrder::AscendingLevelThenShuffled => {
            if a_level < b_level {
                core::cmp::Ordering::Less
            } else if a_level > b_level {
                core::cmp::Ordering::Greater
            } else if tie_a < tie_b {
                core::cmp::Ordering::Less
            } else if tie_a > tie_b {
                core::cmp::Ordering::Greater
            } else {
                core::cmp::Ordering::Equal
            }
        },
        LessonPresentationOrder::Shuffled => {
            if tie_a < tie_b {
                core::cmp::Ordering::Less
            } else if tie_a > tie_b {
                core::cmp::Ordering::Greater
            } else {
                core::cmp::Ordering::Equal
            }
        },
    }
}

impl LessonPresentationOrder {
    /// Return an ordering for a pair of subjects according to the selected
    /// presentation order.  The two draws decide the shuffled cases; the
    /// caller supplies them from its randomness source.
    pub fn order_subjects(
        &self,
        tie_a: u32,
        tie_b: u32,
        subject: &crate::subject::SubjectCommon,
        other: &crate::subject::SubjectCommon,
    ) -> (r: core::cmp::Ordering)
        ensures
            r == order_subjects_spec(
                *self,
                subject.level,
                subject.lesson_position,
                other.level,
                other.lesson_position,
                tie_a,
                tie_b,
            ),
    {
        match self {
            LessonPresentationOrder::AscendingLevelThenSubject => {
                if subject.level < other.level {
                    core::cmp::Ordering::Less
                } else if subject.level > other.level {
                    core::cmp::Ordering::Greater
                } else if subject.lesson_position < other.lesson_position {
                    core::cmp::Ordering::Less
                } else if subject.lesson_position > other.lesson_position {
                    core::cmp::Ordering::Greater
                } else {
                    core::cmp::Ordering::Equal
                }
            },
            LessonPresentationOrder::AscendingLevelThenShuffled => {
                if subject.level < other.level {
                    core::cmp::Ordering::Less
                } else if subject.level > other.level {
                    core::cmp::Ordering::Greater
                } else if tie_a < tie_b {
                    core::cmp::Ordering::Less
                } else if tie_a > tie_b {
                    core::cmp::Ordering::Greater
                } else {
                    core::cmp::Ordering::Equal
                }
            },
            LessonPresentationOrder::Shuffled => {
                if tie_a < tie_b {
                    core::cmp::Ordering::Less
                } else if tie_a > tie_b {
                    core::cmp::Ordering::Greater
                } else {
                    core::cmp::Ordering::Equal
                }
            },
        }
    }
}

/// Details about the user's subscription state.
#[derive(Debug, Clone, Copy, PartialEq, Eq)]
pub struct Subscription {
    /// Whether or not the user currently has a paid subscription.
    pub active: bool,
    /// The maximum level of content accessible to the user for lessons,
    /// reviews, and content review. For unsubscribed/free users, the
    /// maximum level is `3`. For subscribed users, this is `60`.
    pub max_level_granted: u32,
    /// The date when the user's subscription period ends. If the user has
    /// subscription type `lifetime` or `free` then the value is `None`.
    pub period_ends_at: Option<Timestamp>,
    /// The type of subscription the user has; written under the `type`
    /// key.
    pub sub_type: SubscriptionType,
}

impl JsonPayload for Subscription {
    type V = Subscription;

    open spec fn deep(self) -> Subscription {
        self
    }

    open spec fn v_wf(v: Subscription) -> bool {
        opt_wf(v.period_ends_at)
    }

    open spec fn to_json_v(v: Subscription) -> JsonV {
        JsonV::Object(
            seq![
                ("active"@, JsonV::Bool(v.active)),
                ("max_level_granted"@, JsonV::Num(v.max_level_granted as int)),
                ("period_ends_at"@, opt_time_v(v.period_ends_at)),
                ("type"@, JsonV::Str(subscription_type_name(v.sub_type))),
            ],
        )
    }

    open spec fn of_json_v(j: JsonV) -> Option<Subscription> {
        match j {
            JsonV::Object(f) => {
                match (
                    v_bool(f, "active"@),
                    v_u32(f, "max_level_granted"@),
                    v_opt_time(f, "period_ends_at"@),
                    v_str(f, "type"@),
                ) {
                    (Some(active), Some(max_level_granted), Some(period_ends_at), Some(tag)) => {
                        match subscription_type_of_name(tag) {
                            Some(sub_type) => Some(
                                Subscription {
                                    active,
                                    max_level_granted,
                                    period_ends_at,
                                    sub_type,
                                },
                            ),
                            None => None,
                        }
                    },
                    _ => None,
                }
            },
            _ => None,
        }
    }

    #[verifier::rlimit(100)]
    fn encode(&self) -> (r: JsonValue) {
        let mut fields: Vec<(String, JsonValue)> = Vec::new();
        push_field(&mut fields, "active", JsonValue::Bool(self.active));
        push_field(&mut fields, "max_level_granted", JsonValue::of_u64(
            self.max_level_granted as u64,
        ));
        push_field(&mut fields, "period_ends_at", opt_time_json(&self.period_ends_at));
        push_field(&mut fields, "type", JsonValue::Str(self.sub_type.to_string()));
        proof {
            assert(fields_deep(fields@) =~= Self::to_json_v(*self)->Object_0);
            assert(forall|i: int| 0 <= i < fields@.len() ==> (#[trigger] fields@[i]).1.wf());
        }
        JsonValue::Object(fields)
    }

    fn decode(j: &JsonValue) -> (r: Result<Self, DecodeError>) {
        match j {
            JsonValue::Object(f) => {
                let active = match get_bool(f, "active") {
                    Ok(x) => x,
                    Err(e) => {
                        return Err(e);
                    },
                };
                let max_level_granted = match get_u32(f, "max_level_granted") {
                    Ok(x) => x,
                    Err(e) => {
                        return Err(e);
                    },
                };
                let period_ends_at = match get_opt_time(f, "period_ends_at") {
                    Ok(x) => x,
                    Err(e) => {
                        return Err(e);
                    },
                };
                let tag = match get_string(f, "type") {
                    Ok(x) => x,
                    Err(e) => {
                        return Err(e);
                    },
                };
                match SubscriptionType::from_name(tag.as_str()) {
                    Some(sub_type) => Ok(
                        Subscription { active, max_level_granted, period_ends_at, sub_type },
                    ),
                    None => Err(DecodeError),
                }
            },
            _ => Err(DecodeError),
        }
    }

    #[verifier::rlimit(100)]
    proof fn round_trip(v: Subscription) {
        let f = Self::to_json_v(v)->Object_0;
        reveal_strlit("active");
        reveal_strlit("max_level_granted");
        reveal_strlit("period_ends_at");
        reveal_strlit("type");
        assert("active"@.len() == 6);
        assert("max_level_granted"@.len() == 17);
        assert("period_ends_at"@.len() == 14);
        assert("type"@.len() == 4);
        assert(f.len() == 4);
        lemma_obj_get_skips(f);
        assert(obj_get_v(f, "active"@) == Some(f[0].1));
        assert(obj_get_v(f, "max_level_granted"@) == Some(f[1].1));
        assert(obj_get_v(f, "period_ends_at"@) == Some(f[2].1));
        assert(obj_get_v(f, "type"@) == Some(f[3].1));
        lemma_opt_time_round_trip(v.period_ends_at);
        lemma_subscription_type_name_round_trip(v.sub_type);
    }
}

impl JsonPayload for Preferences {
    type V = Preferences;

    open spec fn deep(self) -> Preferences {
        self
    }

    open spec fn v_wf(v: Preferences) -> bool {
        true
    }

    open spec fn to_json_v(v: Preferences) -> JsonV {
        JsonV::Object(
            seq![
                ("default_voice_actor_id"@, JsonV::Num(v.default_voice_actor_id as int)),
                ("extra_study_autoplay_audio"@, JsonV::Bool(v.extra_study_autoplay_audio)),
                ("lessons_autoplay_audio"@, JsonV::Bool(v.lessons_autoplay_audio)),
                ("lessons_batch_size"@, JsonV::Num(v.lessons_batch_size as int)),
                (
                    "lessons_presentation_order"@,
                    JsonV::Str(order_name(v.lessons_presentation_order)),
                ),
                ("reviews_autoplay_audio"@, JsonV::Bool(v.reviews_autoplay_audio)),
                (
                    "reviews_display_srs_indicator"@,
                    JsonV::Bool(v.reviews_display_srs_indicator),
                ),
            ],
        )
    }

    open spec fn of_json_v(j: JsonV) -> Option<Preferences> {
        match j {
            JsonV::Object(f) => {
                match (
                    v_u32(f, "default_voice_actor_id"@),
                    v_bool(f, "extra_study_autoplay_audio"@),
                    v_bool(f, "lessons_autoplay_audio"@),
                    v_u32(f, "lessons_batch_size"@),
                    v_str(f, "lessons_presentation_order"@),
                    v_bool(f, "reviews_autoplay_audio"@),
                    v_bool(f, "reviews_display_srs_indicator"@),
                ) {
                    (
                        Some(default_voice_actor_id),
                        Some(extra_study_autoplay_audio),
                        Some(lessons_autoplay_audio),
                        Some(lessons_batch_size),
                        Some(tag),
                        Some(reviews_autoplay_audio),
                        Some(reviews_display_srs_indicator),
                    ) => match order_of_name(tag) {
                        Some(lessons_presentation_order) => Some(
                            Preferences {
                                default_voice_actor_id,
                                extra_study_autoplay_audio,
                                lessons_autoplay_audio,
                                lessons_batch_size,
                                lessons_presentation_order,
                                reviews_autoplay_audio,
                                reviews_display_srs_indicator,
                            },
                        ),
                        None => None,
                    },
                    _ => None,
                }
            },
            _ => None,
        }
    }

    #[verifier::rlimit(100)]
    fn encode(&self) -> (r: JsonValue) {
        let mut fields: Vec<(String, JsonValue)> = Vec::new();
        push_field(
            &mut fields,
            "default_voice_actor_id",
            JsonValue::of_u64(self.default_voice_actor_id as u64),
        );
        push_field(
            &mut fields,
            "extra_study_autoplay_audio",
            JsonValue::Bool(self.extra_study_autoplay_audio),
        );
        push_field(
            &mut fields,
            "lessons_autoplay_audio",
            JsonValue::Bool(self.lessons_autoplay_audio),
        );
        push_field(
            &mut fields,
            "lessons_batch_size",
            JsonValue::of_u64(self.lessons_batch_size as u64),
        );
        push_field(
            &mut fields,
            "lessons_presentation_order",
            JsonValue::Str(self.lessons_presentation_order.to_string()),
        );
        push_field(
            &mut fields,
            "reviews_autoplay_audio",
            JsonValue::Bool(self.reviews_autoplay_audio),
        );
        push_field(
            &mut fields,
            "reviews_display_srs_indicator",
            JsonValue::Bool(self.reviews_display_srs_indicator),
        );
        proof {
            assert(fields_deep(fields@) =~= Self::to_json_v(*self)->Object_0);
            assert(forall|i: int| 0 <= i < fields@.len() ==> (#[trigger] fields@[i]).1.wf());
        }
        JsonValue::Object(fields)
    }

    fn decode(j: &JsonValue) -> (r: Result<Self, DecodeError>) {
        match j {
            JsonValue::Object(f) => {
                let default_voice_actor_id = match get_u32(f, "default_voice_actor_id") {
                    Ok(x) => x,
                    Err(e) => {
                        return Err(e);
                    },
                };
                let extra_study_autoplay_audio = match get_bool(f, "extra_study_autoplay_audio") {
                    Ok(x) => x,
                    Err(e) => {
                        return Err(e);
                    },
                };
                let lessons_autoplay_audio = match get_bool(f, "lessons_autoplay_audio") {
                    Ok(x) => x,
                    Err(e) => {
                        return Err(e);
                    },
                };
                let lessons_batch_size = match get_u32(f, "lessons_batch_size") {
                    Ok(x) => x,
                    Err(e) => {
                        return Err(e);
                    },
                };
                let tag = match get_string(f, "lessons_presentation_order") {
                    Ok(x) => x,
                    Err(e) => {
                        return Err(e);
                    },
                };
                let reviews_autoplay_audio = match get_bool(f, "reviews_autoplay_audio") {
                    Ok(x) => x,
                    Err(e) => {
                        return Err(e);
                    },
                };
                let reviews_display_srs_indicator = match get_bool(
                    f,
                    "reviews_display_srs_indicator",
                ) {
                    Ok(x) => x,
                    Err(e) => {
                        return Err(e);
                    },
                };
                match LessonPresentationOrder::from_name(tag.as_str()) {
                    Some(lessons_presentation_order) => Ok(
                        Preferences {
                            default_voice_actor_id,
                            extra_study_autoplay_audio,
                            lessons_autoplay_audio,
                            lessons_batch_size,
                            lessons_presentation_order,
                            reviews_autoplay_audio,
                            reviews_display_srs_indicator,
                        },
                    ),
                    None => Err(DecodeError),
                }
            },
            _ => Err(DecodeError),
        }
    }

    #[verifier::rlimit(100)]
    proof fn round_trip(v: Preferences) {
        let f = Self::to_json_v(v)->Object_0;
        reveal_strlit("default_voice_actor_id");
        reveal_strlit("extra_study_autoplay_audio");
        reveal_strlit("lessons_autoplay_audio");
        reveal_strlit("lessons_batch_size");
        reveal_strlit("lessons_presentation_order");
        reveal_strlit("reviews_autoplay_audio");
        reveal_strlit("reviews_display_srs_indicator");
        assert("default_voice_actor_id"@.len() == 22);
        assert("extra_study_autoplay_audio"@.len() == 26);
        assert("lessons_autoplay_audio"@.len() == 22);
        assert("lessons_batch_size"@.len() == 18);
        assert("lessons_presentation_order"@.len() == 26);
        assert("reviews_autoplay_audio"@.len() == 22);
        assert("reviews_display_srs_indicator"@.len() == 29);
        assert("default_voice_actor_id"@[0] != "lessons_autoplay_audio"@[0]);
        assert("default_voice_actor_id"@[0] != "reviews_autoplay_audio"@[0]);
        assert("lessons_autoplay_audio"@[0] != "reviews_autoplay_audio"@[0]);
        assert("extra_study_autoplay_audio"@[0] != "lessons_presentation_order"@[0]);
        assert(f.len() == 7);
        lemma_obj_get_skips(f);
        assert(obj_get_v(f, "default_voice_actor_id"@) == Some(f[0].1));
        assert(obj_get_v(f, "extra_study_autoplay_audio"@) == Some(f[1].1));
        assert(obj_get_v(f, "lessons_autoplay_audio"@) == Some(f[2].1));
        assert(obj_get_v(f, "lessons_batch_size"@) == Some(f[3].1));
        assert(obj_get_v(f, "lessons_presentation_order"@) == Some(f[4].1));
        assert(obj_get_v(f, "reviews_autoplay_audio"@) == Some(f[5].1));
        assert(obj_get_v(f, "reviews_display_srs_indicator"@) == Some(f[6].1));
        lemma_order_name_round_trip(v.lessons_presentation_order);
    }
}

/// Basic information for the user making the API request.
#[derive(Debug, Clone, PartialEq, Eq)]
pub struct UserData {
    /// The user's unique identifier, as the API writes it.
    pub id: String,
    /// If the user is on vacation, this will be the timestamp of when that
    /// vacation started. If the user is not on vacation, this is `None`.
    pub current_vacation_started_at: Option<Timestamp>,
    /// The current level of the user. This ignores subscription status.
    pub level: u32,
    /// User settings specific to the WaniKani application.
    pub preferences: Preferences,
    /// The URL to the user's public facing profile page.
    pub profile_url: String,
    /// The signup date for the user.
    pub started_at: Timestamp,
    /// Details about the user's subscription state.
    pub subscription: Subscription,
    /// The user's username
    pub username: String,
}

/// The view of a [`UserData`].
pub struct UserDataV {
    /// The user's unique identifier.
    pub id: Seq<char>,
    /// When the user's current vacation started, if any.
    pub current_vacation_started_at: Option<Timestamp>,
    /// The current level of the user.
    pub level: u32,
    /// User settings.
    pub preferences: Preferences,
    /// The URL to the user's public facing profile page.
    pub profile_url: Seq<char>,
    /// The signup date for the user.
    pub started_at: Timestamp,
    /// Details about the user's subscription state.
    pub subscription: Subscription,
    /// The user's username.
    pub username: Seq<char>,
}

impl JsonPayload for UserData {
    type V = UserDataV;

    open spec fn deep(self) -> UserDataV {
        UserDataV {
            id: self.id@,
            current_vacation_started_at: self.current_vacation_started_at,
            level: self.level,
            preferences: self.preferences,
            profile_url: self.profile_url@,
            started_at: self.started_at,
            subscription: self.subscription,
            username: self.username@,
        }
    }

    open spec fn v_wf(v: UserDataV) -> bool {
        &&& opt_wf(v.current_vacation_started_at)
        &&& v.started_at.wf()
        &&& opt_wf(v.subscription.period_ends_at)
    }

    open spec fn to_json_v(v: UserDataV) -> JsonV {
        JsonV::Object(
            seq![
                ("id"@, JsonV::Str(v.id)),
                (
                    "current_vacation_started_at"@,
                    opt_time_v(v.current_vacation_started_at),
                ),
                ("level"@, JsonV::Num(v.level as int)),
                ("preferences"@, Preferences::to_json_v(v.preferences)),
                ("profile_url"@, JsonV::Str(v.profile_url)),
                ("started_at"@, JsonV::Str(rfc3339(v.started_at))),
                ("subscription"@, Subscription::to_json_v(v.subscription)),
                ("username"@, JsonV::Str(v.username)),
            ],
        )
    }

    open spec fn of_json_v(j: JsonV) -> Option<UserDataV> {
        match j {
            JsonV::Object(f) => {
                match (
                    v_str(f, "id"@),
                    v_opt_time(f, "current_vacation_started_at"@),
                    v_u32(f, "level"@),
                    obj_get_v(f, "preferences"@),
                    v_str(f, "profile_url"@),
                    v_time(f, "started_at"@),
                    obj_get_v(f, "subscription"@),
                    v_str(f, "username"@),
                ) {
                    (
                        Some(id),
                        Some(current_vacation_started_at),
                        Some(level),
                        Some(pj),
                        Some(profile_url),
                        Some(started_at),
                        Some(sj),
                        Some(username),
                    ) => match (Preferences::of_json_v(pj), Subscription::of_json_v(sj)) {
                        (Some(preferences), Some(subscription)) => Some(
                            UserDataV {
                                id,
                                current_vacation_started_at,
                                level,
                                preferences,
                                profile_url,
                                started_at,
                                subscription,
                                username,
                            },
                        ),
                        _ => None,
                    },
                    _ => None,
                }
            },
            _ => None,
        }
    }

    #[verifier::rlimit(100)]
    fn encode(&self) -> (r: JsonValue) {
        let mut fields: Vec<(String, JsonValue)> = Vec::new();
        push_field(&mut fields, "id", JsonValue::of_string(&self.id));
        push_field(
            &mut fields,
            "current_vacation_started_at",
            opt_time_json(&self.current_vacation_started_at),
        );
        push_field(&mut fields, "level", JsonValue::of_u64(self.level as u64));
        push_field(&mut fields, "preferences", self.preferences.encode());
        push_field(&mut fields, "profile_url", JsonValue::of_string(&self.profile_url));
        push_field(&mut fields, "started_at", time_json(&self.started_at));
        push_field(&mut fields, "subscription", self.subscription.encode());
        push_field(&mut fields, "username", JsonValue::of_string(&self.username));
        proof {
            assert(fields_deep(fields@) =~= Self::to_json_v(self.deep())->Object_0);
            assert(forall|i: int| 0 <= i < fields@.len() ==> (#[trigger] fields@[i]).1.wf());
        }
        JsonValue::Object(fields)
    }

    fn decode(j: &JsonValue) -> (r: Result<Self, DecodeError>) {
        match j {
            JsonValue::Object(f) => {
                let id = match get_string(f, "id") {
                    Ok(x) => x,
                    Err(e) => {
                        return Err(e);
                    },
                };
                let current_vacation_started_at = match get_opt_time(
                    f,
                    "current_vacation_started_at",
                ) {
                    Ok(x) => x,
                    Err(e) => {
                        return Err(e);
                    },
                };
                let level = match get_u32(f, "level") {
                    Ok(x) => x,
                    Err(e) => {
                        return Err(e);
                    },
                };
                let preferences = match obj_get(f, "preferences") {
                    Some(pj) => match Preferences::decode(pj) {
                        Ok(x) => x,
                        Err(e) => {
                            return Err(e);
                        },
                    },
                    None => {
                        return Err(DecodeError);
                    },
                };
                let profile_url = match get_string(f, "profile_url") {
                    Ok(x) => x,
                    Err(e) => {
                        return Err(e);
                    },
                };
                let started_at = match get_time(f, "started_at") {
                    Ok(x) => x,
                    Err(e) => {
                        return Err(e);
                    },
                };
                let subscription = match obj_get(f, "subscription") {
                    Some(sj) => match Subscription::decode(sj) {
                        Ok(x) => x,
                        Err(e) => {
                            return Err(e);
                        },
                    },
                    None => {
                        return Err(DecodeError);
                    },
                };
                let username = match get_string(f, "username") {
                    Ok(x) => x,
                    Err(e) => {
                        return Err(e);
                    },
                };
                Ok(
                    UserData {
                        id,
                        current_vacation_started_at,
                        level,
                        preferences,
                        profile_url,
                        started_at,
                        subscription,
                        username,
                    },
                )
            },
            _ => Err(DecodeError),
        }
    }

    #[verifier::rlimit(100)]
    proof fn round_trip(v: UserDataV) {
        let f = Self::to_json_v(v)->Object_0;
        reveal_strlit("id");
        reveal_strlit("current_vacation_started_at");
        reveal_strlit("level");
        reveal_strlit("preferences");
        reveal_strlit("profile_url");
        reveal_strlit("started_at");
        reveal_strlit("subscription");
        reveal_strlit("username");
        assert("id"@.len() == 2);
        assert("current_vacation_started_at"@.len() == 27);
        assert("level"@.len() == 5);
        assert("preferences"@.len() == 11);
        assert("profile_url"@.len() == 11);
        assert("started_at"@.len() == 10);
        assert("subscription"@.len() == 12);
        assert("username"@.len() == 8);
        assert("preferences"@[2] != "profile_url"@[2]);
        assert(f.len() == 8);
        lemma_obj_get_skips(f);
        assert(obj_get_v(f, "id"@) == Some(f[0].1));
        assert(obj_get_v(f, "current_vacation_started_at"@) == Some(f[1].1));
        assert(obj_get_v(f, "level"@) == Some(f[2].1));
        assert(obj_get_v(f, "preferences"@) == Some(f[3].1));
        assert(obj_get_v(f, "profile_url"@) == Some(f[4].1));
        assert(obj_get_v(f, "started_at"@) == Some(f[5].1));
        assert(obj_get_v(f, "subscription"@) == Some(f[6].1));
        assert(obj_get_v(f, "username"@) == Some(f[7].1));
        lemma_opt_time_round_trip(v.current_vacation_started_at);
        lemma_rfc3339_round_trip(v.started_at);
        Preferences::round_trip(v.preferences);
        Subscription::round_trip(v.subscription);
    }
}

/// The user summary returns basic information for the user making the API
/// request, identified by their API key.
#[derive(Debug, Clone, PartialEq, Eq)]
pub struct User {
    /// Common resource data.
    pub common: crate::resource::ResourceCommon,
    /// The user's data
    pub data: UserData,
}

impl User {
    /// Writes the report envelope around the user data.
    pub fn encode(&self) -> (r: JsonValue)
        requires
            self.common.wf(),
            UserData::v_wf(self.data.deep()),
        ensures
            r.deep() == crate::resource::report_to_json_v::<UserData>(
                self.common.deep(),
                self.data.deep(),
            ),
            r.wf(),
    {
        crate::resource::encode_report::<UserData>(&self.common, &self.data)
    }

    /// Reads a user summary, exactly when the tree has the right shape.
    pub fn decode(j: &JsonValue) -> (r: Result<User, DecodeError>)
        ensures
            match r {
                Ok(x) => crate::resource::report_of_json_v::<UserData>(j.deep()) == Some(
                    (x.common.deep(), x.data.deep()),
                ),
                Err(_) => crate::resource::report_of_json_v::<UserData>(j.deep()) is None,
            },
    {
        match crate::resource::decode_report::<UserData>(j) {
            Ok((common, data)) => Ok(User { common, data }),
            Err(e) => Err(e),
        }
    }
}

} // verus!
