//! The data model: the claims a token carries, the payload a decoder
//! recovers from a token, and the minimal authenticated-identity record.

use vstd::prelude::*;

verus! {

/// The payload of an issued token: who it is for, when it stops being
/// valid (seconds since the Unix epoch), and a role label.
#[derive(Debug)]
pub struct Claims {
    pub sub: String,
    pub exp: u64,
    pub role: String,
}

/// Mathematical image of `Claims`.
pub struct ClaimsView {
    pub sub: Seq<char>,
    pub exp: u64,
    pub role: Seq<char>,
}

impl View for Claims {
    type V = ClaimsView;

    open spec fn view(&self) -> ClaimsView {
        ClaimsView { sub: self.sub@, exp: self.exp, role: self.role@ }
    }
}

/// What a signature-checked token turned out to hold, before any schema
/// or timestamp judgement: each claim verification cares about, if present.
pub struct DecodedPayload {
    pub sub: Option<String>,
    pub exp: Option<u64>,
    pub role: Option<String>,
    pub nbf: Option<u64>,
}

/// Mathematical image of `DecodedPayload`.
pub struct DecodedView {
    pub sub: Option<Seq<char>>,
    pub exp: Option<u64>,
    pub role: Option<Seq<char>>,
    pub nbf: Option<u64>,
}

impl View for DecodedPayload {
    type V = DecodedView;

    open spec fn view(&self) -> DecodedView {
        DecodedView {
            sub: match self.sub {
                Some(s) => Some(s@),
                None => None,
            },
            exp: self.exp,
            role: match self.role {
                Some(s) => Some(s@),
                None => None,
            },
            nbf: self.nbf,
        }
    }
}

/// An authenticated identity, carrying only an identifier.
#[derive(Debug)]
pub struct User {
    pub id: String,
}

/// The credential check. A placeholder for a real credential store: it
/// accepts any username and password and resolves them to the constant
/// placeholder identity.
pub fn validate_user(_username: &String, _password: &String) -> (r: Result<User, String>)
    ensures
        r matches Ok(u) && u.id@ == "default"@,
{
    Ok(User { id: "default".to_owned() })
}

} // verus!
