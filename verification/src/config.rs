//! The process-wide validation policy: the shared secret and the rules a
//! presented token is held to. Built once at startup and never mutated.

use vstd::prelude::*;

verus! {

/// The rules a presented token must satisfy beyond a correct signature:
/// how much clock skew to forgive, and whether the expiration and
/// not-before timestamps are enforced at all.
#[derive(Clone, Copy, PartialEq, Eq, Structural)]
pub struct Validation {
    /// Tolerance, in seconds, applied to the `exp` and `nbf` checks.
    pub leeway: u64,
    /// Whether a token past its `exp` (minus leeway) is rejected.
    pub validate_exp: bool,
    /// Whether a token before its `nbf` (plus leeway) is rejected.
    pub validate_nbf: bool,
}

/// The whole gate policy: the symmetric signing secret together with the
/// validation rules.
#[derive(Clone)]
pub struct JwtConfig {
    pub secret: String,
    pub _leeway: u64,
    pub validation: Validation,
}

/// The leeway, in seconds, granted on timestamp checks.
pub const LEEWAY_SECONDS: u64 = 60;

impl JwtConfig {
    /// Builds the policy used for every request: sixty seconds of leeway,
    /// with both the expiration and the not-before checks enforced.
    pub fn new(secret: &str) -> (r: Self)
        ensures
            r.secret@ == secret@,
            r._leeway == LEEWAY_SECONDS,
            r.validation == (Validation {
                leeway: LEEWAY_SECONDS,
                validate_exp: true,
                validate_nbf: true,
            }),
    {
        let validation = Validation { leeway: LEEWAY_SECONDS, validate_exp: true, validate_nbf: true };
        JwtConfig { secret: secret.to_owned(), _leeway: LEEWAY_SECONDS, validation }
    }
}

} // verus!
