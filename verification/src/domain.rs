//! What a client sends and receives.

use crate::session::Session;
use crate::text::same_text;
use crate::time::Timestamp;
use vstd::prelude::*;
use vstd::std_specs::convert::FromSpecImpl;

verus! {

/// A login name with a password: as the client typed it, or with the
/// password hashed, as the store keeps it.
pub struct Credentials {
    pub login: String,
    pub password: String,
}

/// The gender that a profile states.
#[derive(Clone, Copy, Debug, PartialEq, Eq, Structural)]
pub enum Gender {
    Male,
    Female,
    Unknown,
}

/// Something a user is interested in.
#[derive(Clone, Debug)]
pub struct Interest {
    pub name: String,
    pub description: String,
}

/// The answer to a successful login.
#[derive(Debug)]
pub struct AuthenticationResponse {
    pub session_id: String,
    pub expires: Timestamp,
}

impl Gender {
    /// The gender that `text` names: `Male`, `Female`, and `Unknown` for
    /// every other text.
    pub open spec fn named_by(text: Seq<char>) -> Gender {
        if text == "Male"@ {
            Gender::Male
        } else if text == "Female"@ {
            Gender::Female
        } else {
            Gender::Unknown
        }
    }

    /// The name of a gender.
    pub open spec fn name(self) -> Seq<char> {
        match self {
            Gender::Male => "Male"@,
            Gender::Female => "Female"@,
            Gender::Unknown => "Unknown"@,
        }
    }

    /// The name of this gender as a text.
    pub fn to_text(&self) -> (text: String)
        ensures
            text@ == self.name(),
    {
        match self {
            Gender::Male => "Male".to_owned(),
            Gender::Female => "Female".to_owned(),
            Gender::Unknown => "Unknown".to_owned(),
        }
    }
}

impl From<String> for Gender {
    fn from(value: String) -> (gender: Gender) {
        if same_text(value.as_str(), "Male") {
            Gender::Male
        } else if same_text(value.as_str(), "Female") {
            Gender::Female
        } else {
            Gender::Unknown
        }
    }
}

impl FromSpecImpl<String> for Gender {
    open spec fn obeys_from_spec() -> bool {
        true
    }

    open spec fn from_spec(value: String) -> Gender {
        Gender::named_by(value@)
    }
}

/// A gender is named by its own name.
pub proof fn lemma_gender_round_trip(gender: Gender)
    ensures
        Gender::named_by(gender.name()) == gender,
{
    reveal_strlit("Male");
    reveal_strlit("Female");
    reveal_strlit("Unknown");
    assert("Female"@.len() != "Male"@.len());
    assert("Unknown"@.len() != "Male"@.len());
    assert("Unknown"@.len() != "Female"@.len());
}

impl AuthenticationResponse {
    /// The answer that tells a client of `session`.
    pub fn of_session(session: Session) -> (response: AuthenticationResponse)
        ensures
            response.session_id == session.session_id,
            response.expires == session.expires,
    {
        AuthenticationResponse { session_id: session.session_id, expires: session.expires }
    }
}

} // verus!
