//! Token issuance and the trusted boundary around the signed-token
//! primitive: signing claims into a compact token and checking a
//! candidate token's signature and structure.
//!
//! The signing algorithm is HMAC-SHA256 throughout. Its output is far
//! too involved to write down, but it is a pure function of the claims
//! and the secret; the names `token_of` and `decoded_of` stand for the
//! two directions of it.

use vstd::prelude::*;
use crate::claims::{Claims, DecodedPayload, DecodedView};

verus! {

/// The compact signed token that signing a claims record
/// `{sub, exp, role}` with `secret` produces.
pub uninterp spec fn token_of(sub: Seq<char>, exp: u64, role: Seq<char>, secret: Seq<char>) -> Seq<char>;

/// What checking `token` against `secret` yields: `None` when the token's
/// structure or signature is refused, otherwise the payload fields.
pub uninterp spec fn decoded_of(token: Seq<char>, secret: Seq<char>) -> Option<DecodedView>;

/// The role every issued token carries.
pub open spec fn role_default() -> Seq<char> {
    "default"@
}

/// The payload an issued token for `sub` expiring at `exp` decodes to.
pub open spec fn issued_view(sub: Seq<char>, exp: u64) -> DecodedView {
    DecodedView { sub: Some(sub), exp: Some(exp), role: Some(role_default()), nbf: None }
}

/// A character the compact token form may carry: the URL-safe base64
/// alphabet, or the `.` that separates its segments.
pub open spec fn token_char(c: char) -> bool {
    c == '.' || c == '-' || c == '_' || ('0' <= c && c <= '9') || ('A' <= c && c <= 'Z') || ('a'
        <= c && c <= 'z')
}

/// The compact surface form of a signed token: three segments joined by
/// exactly two `.` separators, every character from the URL-safe base64
/// alphabet.
pub open spec fn compact_jwt_form(t: Seq<char>) -> bool {
    (forall|i: int| 0 <= i < t.len() ==> token_char(#[trigger] t[i])) && t.filter(
        |c: char| c == '.',
    ).len() == 2
}

/// Relies on `jsonwebtoken::encode` with HMAC-SHA256. The call cannot
/// fail here: the key family matches the algorithm, a map of string and
/// integer values always serializes, and HMAC signing is infallible. The
/// compact token — two URL-safe base64 segments and the signature,
/// joined by `.` — is a function of the claims and the secret alone, and
/// `jsonwebtoken::decode` under the same secret accepts it and recovers
/// exactly the claims that were signed, no `nbf` among them.
#[verifier::external_body]
fn encode_claims(claims: &Claims, secret: &str) -> (r: Result<
    String,
    jsonwebtoken::errors::Error,
>)
    ensures
        r is Ok,
        r matches Ok(t) ==> t@ == token_of(claims.sub@, claims.exp, claims.role@, secret@),
        r matches Ok(t) ==> compact_jwt_form(t@),
        r matches Ok(t) ==> decoded_of(t@, secret@) == Some(
            DecodedView {
                sub: Some(claims.sub@),
                exp: Some(claims.exp),
                role: Some(claims.role@),
                nbf: None,
            },
        ),
{
    let mut payload = serde_json::Map::new();
    payload.insert("sub".to_owned(), serde_json::Value::from(claims.sub.clone()));
    payload.insert("exp".to_owned(), serde_json::Value::from(claims.exp));
    payload.insert("role".to_owned(), serde_json::Value::from(claims.role.clone()));
    jsonwebtoken::encode(
        &jsonwebtoken::Header::new(jsonwebtoken::Algorithm::HS256),
        &payload,
        &jsonwebtoken::EncodingKey::from_secret(secret.as_bytes()),
    )
}

/// Relies on `jsonwebtoken::decode` with HMAC-SHA256 and every timestamp
/// and required-claim check turned off: whether the token's structure and
/// signature are accepted, and which payload fields come back, is a
/// function of the token and the secret alone.
#[verifier::external_body]
pub(crate) fn decode_signed(token: &str, secret: &str) -> (r: Result<
    DecodedPayload,
    jsonwebtoken::errors::Error,
>)
    ensures
        r is Ok <==> decoded_of(token@, secret@) is Some,
        r matches Ok(d) ==> decoded_of(token@, secret@) == Some(d@),
{
    let mut v = jsonwebtoken::Validation::new(jsonwebtoken::Algorithm::HS256);
    v.validate_exp = false;
    v.validate_nbf = false;
    v.required_spec_claims.clear();
    let key = jsonwebtoken::DecodingKey::from_secret(secret.as_bytes());
    let m = jsonwebtoken::decode::<serde_json::Map<String, serde_json::Value>>(token, &key, &v)?
        .claims;
    Ok(DecodedPayload {
        sub: m.get("sub").and_then(|x| x.as_str()).map(str::to_owned),
        exp: m.get("exp").and_then(|x| x.as_u64()),
        role: m.get("role").and_then(|x| x.as_str()).map(str::to_owned),
        nbf: m.get("nbf").and_then(|x| x.as_u64()),
    })
}

/// Relies on `jsonwebtoken::get_current_timestamp`: the system clock as
/// seconds since the Unix epoch; it stops the process on a clock before
/// the epoch. Nothing can be promised of a clock reading.
#[verifier::external_body]
pub(crate) fn now_seconds() -> u64 {
    jsonwebtoken::get_current_timestamp()
}

/// Relies on `chrono::Utc::now` and `checked_add_signed`: the clock
/// reading and the reading one hour ahead, as seconds since the Unix
/// epoch, so the second component is exactly 3600 past the first. The
/// process stops, deliberately, when the instant one hour ahead is not
/// representable or the clock reads before the epoch: either means a
/// broken or adversarial clock.
#[verifier::external_body]
fn issuance_instants() -> (r: (u64, u64))
    ensures
        r.1 == r.0 + 3600,
{
    let now = chrono::Utc::now();
    let exp = now
        .checked_add_signed(chrono::Duration::hours(1))
        .expect("Invalid timestamp! Server is shutdown!");
    let now_s = u64::try_from(now.timestamp()).expect("Invalid timestamp! Server is shutdown!");
    let exp_s = u64::try_from(exp.timestamp()).expect("Invalid timestamp! Server is shutdown!");
    (now_s, exp_s)
}

/// Signs a claims record for `user_id` that expires at `exp`: the subject
/// is `user_id`, the role the constant default.
pub fn issue_at(user_id: &str, secret: &str, exp: u64) -> (r: Result<
    String,
    jsonwebtoken::errors::Error,
>)
    ensures
        r is Ok,
        r matches Ok(t) ==> t@ == token_of(user_id@, exp, role_default(), secret@),
        r matches Ok(t) ==> decoded_of(t@, secret@) == Some(issued_view(user_id@, exp)),
        r matches Ok(t) ==> compact_jwt_form(t@),
{
    let claims = Claims { sub: user_id.to_owned(), exp, role: "default".to_owned() };
    encode_claims(&claims, secret)
}

/// The payload a token issued at instant `iss` decodes to: the subject,
/// the default role, and an expiration one hour past the instant.
pub open spec fn issued_at_view(sub: Seq<char>, iss: u64) -> DecodedView {
    issued_view(sub, (iss + 3600) as u64)
}

/// Issues a signed token for `user_id`: the claims carry the subject,
/// the constant default role, and an expiration exactly one hour past
/// the instant of issuance.
pub fn generate_jwt(user_id: &str, secret: &str) -> (r: Result<
    String,
    jsonwebtoken::errors::Error,
>)
    ensures
        r is Ok,
        r matches Ok(t) ==> (decoded_of(t@, secret@) matches Some(d) && d.sub == Some(user_id@)
            && d.role == Some(role_default()) && d.exp is Some && d.nbf is None),
        r matches Ok(t) ==> compact_jwt_form(t@),
        r matches Ok(t) ==> exists|iss: u64|
            iss + 3600 <= u64::MAX && decoded_of(t@, secret@) == Some(
                #[trigger] issued_at_view(user_id@, iss),
            ),
{
    let instants = issuance_instants();
    let r = issue_at(user_id, secret, instants.1);
    proof {
        assert(issued_at_view(user_id@, instants.0) == issued_view(user_id@, instants.1));
    }
    r
}

} // verus!
