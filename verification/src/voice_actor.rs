//! Available voice actors used for vocabulary reading pronunciation audio.

use vstd::prelude::*;

use crate::codec::{DecodeError, v_str, v_time, get_string, get_time, time_json};
use crate::json::{JsonValue, JsonV, obj_get_v, push_field, fields_deep};
use crate::resource::{JsonPayload, lemma_obj_get_skips};
use crate::timestamp::{Timestamp, rfc3339, lemma_rfc3339_round_trip};

verus! {

/// The gender of a voice actor's voice.
#[derive(Debug, Clone, Copy, PartialEq, Eq, Structural)]
pub enum Gender {
    /// A male voice.
    Male,
    /// A female voice.
    Female,
}

/// The tag under which a gender appears on the wire.
pub open spec fn gender_name(g: Gender) -> Seq<char> {
    match g {
        Gender::Male => "male"@,
        Gender::Female => "female"@,
    }
}

/// The gender a wire tag names, if any.
pub open spec fn gender_of_name(s: Seq<char>) -> Option<Gender> {
    if s == "male"@ {
        Some(Gender::Male)
    } else if s == "female"@ {
        Some(Gender::Female)
    } else {
        None
    }
}

/// Every wire tag names back the gender it was written for.
pub proof fn lemma_gender_name_round_trip(g: Gender)
    ensures
        gender_of_name(gender_name(g)) == Some(g),
{
    reveal_strlit("male");
    reveal_strlit("female");
    assert("male"@.len() == 4);
    assert("female"@.len() == 6);
}

impl Gender {
    /// Writes the wire tag for this gender.
    pub fn to_string(&self) -> (r: String)
        ensures
            r@ == gender_name(*self),
    {
        match self {
            Gender::Male => "male".to_owned(),
            Gender::Female => "female".to_owned(),
        }
    }

    /// Reads a wire tag.
    pub fn from_name(s: &str) -> (r: Option<Gender>)
        ensures
            r == gender_of_name(s@),
    {
        if crate::codec::str_eq(s, "male") {
            Some(Gender::Male)
        } else if crate::codec::str_eq(s, "female") {
            Some(Gender::Female)
        } else {
            None
        }
    }
}

/// The field's value as a gender tag.
pub open spec fn v_gender(f: Seq<(Seq<char>, JsonV)>, key: Seq<char>) -> Option<Gender> {
    match v_str(f, key) {
        Some(s) => gender_of_name(s),
        None => None,
    }
}

/// Reads a gender field.
pub fn get_gender(f: &Vec<(String, JsonValue)>, key: &str) -> (r: Result<Gender, DecodeError>)
    ensures
        match r {
            Ok(x) => v_gender(fields_deep(f@), key@) == Some(x),
            Err(_) => v_gender(fields_deep(f@), key@) is None,
        },
{
    match get_string(f, key) {
        Ok(s) => match Gender::from_name(s.as_str()) {
            Some(g) => Ok(g),
            None => Err(DecodeError),
        },
        Err(e) => Err(e),
    }
}

/// Specific voice actor data
#[derive(Debug, Clone, PartialEq, Eq)]
pub struct VoiceActor {
    /// When the voice actor was first added.
    pub created_at: Timestamp,
    /// The voice actor's name.
    pub name: String,
    /// The voice actor's gender.
    pub gender: Gender,
    /// Details about the voice actor.
    pub description: String,
}

/// The view of a [`VoiceActor`].
pub struct VoiceActorV {
    /// When the voice actor was first added.
    pub created_at: Timestamp,
    /// The voice actor's name.
    pub name: Seq<char>,
    /// The voice actor's gender.
    pub gender: Gender,
    /// Details about the voice actor.
    pub description: Seq<char>,
}

impl JsonPayload for VoiceActor {
    type V = VoiceActorV;

    open spec fn deep(self) -> VoiceActorV {
        VoiceActorV {
            created_at: self.created_at,
            name: self.name@,
            gender: self.gender,
            description: self.description@,
        }
    }

    open spec fn v_wf(v: VoiceActorV) -> bool {
        v.created_at.wf()
    }

    open spec fn to_json_v(v: VoiceActorV) -> JsonV {
        JsonV::Object(
            seq![
                ("created_at"@, JsonV::Str(rfc3339(v.created_at))),
                ("name"@, JsonV::Str(v.name)),
                ("gender"@, JsonV::Str(gender_name(v.gender))),
                ("description"@, JsonV::Str(v.description)),
            ],
        )
    }

    open spec fn of_json_v(j: JsonV) -> Option<VoiceActorV> {
        match j {
            JsonV::Object(f) => {
                match (
                    v_time(f, "created_at"@),
                    v_str(f, "name"@),
                    v_gender(f, "gender"@),
                    v_str(f, "description"@),
                ) {
                    (Some(created_at), Some(name), Some(gender), Some(description)) => Some(
                        VoiceActorV { created_at, name, gender, description },
                    ),
                    _ => None,
                }
            },
            _ => None,
        }
    }

    #[verifier::rlimit(100)]
    fn encode(&self) -> (r: JsonValue) {
        let mut fields: Vec<(String, JsonValue)> = Vec::new();
        push_field(&mut fields, "created_at", time_json(&self.created_at));
        push_field(&mut fields, "name", JsonValue::of_string(&self.name));
        push_field(&mut fields, "gender", JsonValue::Str(self.gender.to_string()));
        push_field(&mut fields, "description", JsonValue::of_string(&self.description));
        proof {
            assert(fields_deep(fields@) =~= Self::to_json_v(self.deep())->Object_0);
            assert(forall|i: int| 0 <= i < fields@.len() ==> (#[trigger] fields@[i]).1.wf());
        }
        JsonValue::Object(fields)
    }

    fn decode(j: &JsonValue) -> (r: Result<Self, DecodeError>) {
        match j {
            JsonValue::Object(f) => {
                let created_at = match get_time(f, "created_at") {
                    Ok(x) => x,
                    Err(e) => {
                        return Err(e);
                    },
                };
                let name = match get_string(f, "name") {
                    Ok(x) => x,
                    Err(e) => {
                        return Err(e);
                    },
                };
                let gender = match get_gender(f, "gender") {
                    Ok(x) => x,
                    Err(e) => {
                        return Err(e);
                    },
                };
                let description = match get_string(f, "description") {
                    Ok(x) => x,
                    Err(e) => {
                        return Err(e);
                    },
                };
                Ok(VoiceActor { created_at, name, gender, description })
            },
            _ => Err(DecodeError),
        }
    }

    #[verifier::rlimit(100)]
    proof fn round_trip(v: VoiceActorV) {
        let f = Self::to_json_v(v)->Object_0;
        reveal_strlit("created_at");
        reveal_strlit("name");
        reveal_strlit("gender");
        reveal_strlit("description");
        assert("created_at"@.len() == 10);
        assert("name"@.len() == 4);
        assert("gender"@.len() == 6);
        assert("description"@.len() == 11);
        assert(f.len() == 4);
        lemma_obj_get_skips(f);
        assert(obj_get_v(f, "created_at"@) == Some(f[0].1));
        assert(obj_get_v(f, "name"@) == Some(f[1].1));
        assert(obj_get_v(f, "gender"@) == Some(f[2].1));
        assert(obj_get_v(f, "description"@) == Some(f[3].1));
        lemma_rfc3339_round_trip(v.created_at);
        lemma_gender_name_round_trip(v.gender);
    }
}

} // verus!
