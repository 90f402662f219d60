//! The request gate: extracts the bearer token from the `Authorization`
//! header, checks the token's signature through the decoder, and judges
//! the recovered claims against the validation policy.

use vstd::prelude::*;
use crate::claims::{Claims, ClaimsView, DecodedPayload, DecodedView};
use crate::config::{JwtConfig, Validation};
use crate::errors::{JwtError, TokenError, TokenErrorView};
use crate::token::{decode_signed, decoded_of, now_seconds};

verus! {

/// Header bytes that `Authorization` may carry as text: visible ASCII,
/// the space, or the horizontal tab.
pub open spec fn visible_ascii_byte(b: u8) -> bool {
    (32 <= b && b < 127) || b == 9
}

/// A header value is valid text when every byte is.
pub open spec fn valid_header_text(s: Seq<u8>) -> bool {
    forall|i: int| 0 <= i < s.len() ==> visible_ascii_byte(#[trigger] s[i])
}

/// The characters a sequence of ASCII bytes reads as.
pub open spec fn header_chars(s: Seq<u8>) -> Seq<char> {
    Seq::new(s.len(), |i: int| s[i] as char)
}

/// The bytes an ASCII character sequence reads as, one per character.
pub open spec fn ascii_bytes(t: Seq<char>) -> Seq<u8> {
    Seq::new(t.len(), |i: int| t[i] as u8)
}

/// The scheme prefix as a byte sequence.
pub open spec fn bearer_prefix_bytes() -> Seq<u8> {
    seq![66u8, 101u8, 97u8, 114u8, 101u8, 114u8, 32u8]
}

/// The scheme prefix, byte for byte: `B e a r e r ` with its single
/// trailing space, case-sensitive.
pub open spec fn has_bearer_prefix(s: Seq<u8>) -> bool {
    s.len() >= 7 && s[0] == 66 && s[1] == 101 && s[2] == 97 && s[3] == 114 && s[4] == 101
        && s[5] == 114 && s[6] == 32
}

/// The blanks trimmed around the candidate token. Only the space and the
/// tab can occur here: every other whitespace byte is not valid header
/// text in the first place.
pub open spec fn ws_byte(b: u8) -> bool {
    b == 32 || b == 9
}

/// `s` with its leading blanks removed.
pub open spec fn trim_front(s: Seq<u8>) -> Seq<u8>
    decreases s.len(),
{
    if s.len() > 0 && ws_byte(s[0]) {
        trim_front(s.subrange(1, s.len() as int))
    } else {
        s
    }
}

/// `s` with its trailing blanks removed.
pub open spec fn trim_back(s: Seq<u8>) -> Seq<u8>
    decreases s.len(),
{
    if s.len() > 0 && ws_byte(s[s.len() - 1]) {
        trim_back(s.subrange(0, s.len() - 1))
    } else {
        s
    }
}

/// The candidate token a well-formed header yields: everything after the
/// scheme prefix, stripped of surrounding blanks.
pub open spec fn bearer_token_bytes(h: Seq<u8>) -> Seq<u8> {
    trim_back(trim_front(h.subrange(7, h.len() as int)))
}

proof fn lemma_trim_front_at(s: Seq<u8>, i: int)
    requires
        0 <= i <= s.len(),
        forall|k: int| 0 <= k < i ==> ws_byte(#[trigger] s[k]),
        i == s.len() || !ws_byte(s[i]),
    ensures
        trim_front(s) == s.subrange(i, s.len() as int),
    decreases i,
{
    if i == 0 {
        assert(s.subrange(0, s.len() as int) =~= s);
    } else {
        let t = s.subrange(1, s.len() as int);
        assert(forall|k: int| 0 <= k < i - 1 ==> ws_byte(#[trigger] t[k]));
        lemma_trim_front_at(t, i - 1);
        assert(t.subrange(i - 1, t.len() as int) =~= s.subrange(i, s.len() as int));
    }
}

proof fn lemma_trim_back_at(s: Seq<u8>, j: int)
    requires
        0 <= j <= s.len(),
        forall|k: int| j <= k < s.len() ==> ws_byte(#[trigger] s[k]),
        j == 0 || !ws_byte(s[j - 1]),
    ensures
        trim_back(s) == s.subrange(0, j),
    decreases s.len() - j,
{
    if j == s.len() {
        assert(s.subrange(0, s.len() as int) =~= s);
    } else {
        let t = s.subrange(0, s.len() - 1);
        assert(forall|k: int| j <= k < t.len() ==> ws_byte(#[trigger] t[k]));
        lemma_trim_back_at(t, j);
        assert(t.subrange(0, j) =~= s.subrange(0, j));
    }
}

/// Relies on `String::from_utf8_lossy`: bytes that are all ASCII decode
/// to the string of exactly those characters.
#[verifier::external_body]
fn ascii_bytes_to_string(v: &Vec<u8>) -> (r: String)
    requires
        forall|i: int| 0 <= i < v@.len() ==> v@[i] < 128,
    ensures
        r@ == header_chars(v@),
{
    String::from_utf8_lossy(v.as_slice()).into_owned()
}

/// Pulls the candidate token out of the `Authorization` header value:
/// the header must be present, must be valid header text, and must carry
/// the `Bearer ` prefix; the rest, trimmed of surrounding blanks, is the
/// candidate.
#[verifier::loop_isolation(false)]
pub fn extract_bearer(header: Option<&Vec<u8>>) -> (r: Result<String, JwtError>)
    ensures
        header is None <==> r == Err::<String, JwtError>(JwtError::MissingAuthHeader),
        (header matches Some(h) && !(valid_header_text(h@) && has_bearer_prefix(h@))) <==> r
            == Err::<String, JwtError>(JwtError::InvalidTokenFormat),
        header matches Some(h) ==> ((valid_header_text(h@) && has_bearer_prefix(h@)) ==> (r matches
        Ok(t) && t@ == header_chars(bearer_token_bytes(h@)))),
{
    let h = match header {
        None => {
            return Err(JwtError::MissingAuthHeader);
        },
        Some(h) => h,
    };
    let n = h.len();
    let mut i: usize = 0;
    while i < n
        invariant
            i <= n,
            n == h@.len(),
            forall|k: int| 0 <= k < i ==> visible_ascii_byte(#[trigger] h@[k]),
        decreases n - i,
    {
        let b = h[i];
        if !((32 <= b && b < 127) || b == 9) {
            proof {
                assert(!visible_ascii_byte(h@[i as int]));
                assert(!valid_header_text(h@));
            }
            return Err(JwtError::InvalidTokenFormat);
        }
        i += 1;
    }
    if n < 7 || h[0] != 66 || h[1] != 101 || h[2] != 97 || h[3] != 114 || h[4] != 101 || h[5] != 114
        || h[6] != 32 {
        return Err(JwtError::InvalidTokenFormat);
    }
    let mut start: usize = 7;
    while start < n && (h[start] == 32 || h[start] == 9)
        invariant
            7 <= start <= n,
            n == h@.len(),
            forall|k: int| 7 <= k < start ==> ws_byte(#[trigger] h@[k]),
        decreases n - start,
    {
        start += 1;
    }
    let mut end: usize = n;
    while end > start && (h[end - 1] == 32 || h[end - 1] == 9)
        invariant
            start <= end <= n,
            n == h@.len(),
            forall|k: int| end <= k < n ==> ws_byte(#[trigger] h@[k]),
        decreases end,
    {
        end -= 1;
    }
    let mut tok_bytes: Vec<u8> = Vec::new();
    let mut j: usize = start;
    while j < end
        invariant
            start <= j <= end,
            end <= n,
            n == h@.len(),
            tok_bytes@ == h@.subrange(start as int, j as int),
        decreases end - j,
    {
        let b = h[j];
        tok_bytes.push(b);
        j += 1;
        proof {
            assert(tok_bytes@ =~= h@.subrange(start as int, j as int));
        }
    }
    proof {
        let body = h@.subrange(7, n as int);
        lemma_trim_front_at(body, start - 7);
        assert(body.subrange(start - 7, body.len() as int) =~= h@.subrange(
            start as int,
            n as int,
        ));
        let fronted = h@.subrange(start as int, n as int);
        lemma_trim_back_at(fronted, end - start);
        assert(fronted.subrange(0, end - start) =~= h@.subrange(start as int, end as int));
        assert(bearer_token_bytes(h@) == tok_bytes@);
    }
    let t = ascii_bytes_to_string(&tok_bytes);
    Ok(t)
}

/// How the policy judges a signature-checked payload: the three claims of
/// the schema must be present; then, as the policy directs, the token
/// must not be expired by more than the leeway nor become valid only
/// beyond the leeway.
pub open spec fn claims_check(d: DecodedView, v: Validation, now: u64) -> Result<
    ClaimsView,
    TokenErrorView,
> {
    match (d.sub, d.exp, d.role) {
        (Some(sub), Some(exp), Some(role)) => if v.validate_exp && exp + v.leeway < now {
            Err(TokenErrorView::Expired)
        } else if v.validate_nbf && (match d.nbf {
            Some(nbf) => nbf > now + v.leeway,
            None => false,
        }) {
            Err(TokenErrorView::NotYetValid)
        } else {
            Ok(ClaimsView { sub, exp, role })
        },
        (None, _, _) => Err(TokenErrorView::MissingSubject),
        (_, None, _) => Err(TokenErrorView::MissingExpiry),
        (_, _, None) => Err(TokenErrorView::MissingRole),
    }
}

/// What verifying a candidate token must yield: the decoder's rejection,
/// or the policy's judgement of the payload the decoder recovered.
pub open spec fn verify_model(token: Seq<char>, secret: Seq<char>, v: Validation, now: u64) -> Result<
    ClaimsView,
    TokenErrorView,
> {
    match decoded_of(token, secret) {
        Some(d) => claims_check(d, v, now),
        None => Err(TokenErrorView::Rejected),
    }
}

/// Relates an executable verification result to the model's: same
/// success or failure, the same claims on success, the same reason on
/// failure.
pub open spec fn outcome_matches(r: Result<Claims, TokenError>, m: Result<
    ClaimsView,
    TokenErrorView,
>) -> bool {
    match m {
        Ok(cv) => r matches Ok(c) && c@ == cv,
        Err(ev) => r matches Err(e) && e@ == ev,
    }
}

/// Judges a signature-checked payload against the policy at instant
/// `now`, returning the claims record a valid token asserts.
pub fn validate_decoded(d: &DecodedPayload, v: &Validation, now: u64) -> (r: Result<
    Claims,
    TokenError,
>)
    ensures
        outcome_matches(r, claims_check(d@, *v, now)),
{
    let sub = match &d.sub {
        Some(s) => s.clone(),
        None => {
            return Err(TokenError::MissingSubject);
        },
    };
    let exp = match d.exp {
        Some(e) => e,
        None => {
            return Err(TokenError::MissingExpiry);
        },
    };
    let role = match &d.role {
        Some(s) => s.clone(),
        None => {
            return Err(TokenError::MissingRole);
        },
    };
    if v.validate_exp && exp < now && now - exp > v.leeway {
        return Err(TokenError::Expired);
    }
    if v.validate_nbf {
        match d.nbf {
            Some(nbf) => if nbf > now && nbf - now > v.leeway {
                return Err(TokenError::NotYetValid);
            },
            None => (),
        }
    }
    Ok(Claims { sub, exp, role })
}

/// Verifies a candidate token against the policy as of instant `now`:
/// signature first, then the policy's judgement of the claims.
pub fn verify_jwt_at(token: &str, config: &JwtConfig, now: u64) -> (r: Result<Claims, TokenError>)
    ensures
        outcome_matches(r, verify_model(token@, config.secret@, config.validation, now)),
{
    match decode_signed(token, config.secret.as_str()) {
        Err(e) => Err(TokenError::Rejected(e)),
        Ok(d) => validate_decoded(&d, &config.validation, now),
    }
}

/// Verifies a candidate token against the policy as of the present
/// instant. The clock is read once; everything else is the pure
/// judgement of `verify_jwt_at`.
pub fn verify_jwt(token: &str, config: &JwtConfig) -> (r: Result<Claims, TokenError>)
    ensures
        exists|now: u64|
            outcome_matches(
                r,
                #[trigger] verify_model(token@, config.secret@, config.validation, now),
            ),
{
    let now = now_seconds();
    verify_jwt_at(token, config, now)
}

/// Relates a gate result to the verification model's outcome: claims
/// pass through on success, and a verification failure is wrapped as
/// `DecodeError`.
pub open spec fn gate_matches(r: Result<Claims, JwtError>, m: Result<
    ClaimsView,
    TokenErrorView,
>) -> bool {
    match m {
        Ok(cv) => r matches Ok(c) && c@ == cv,
        Err(ev) => r matches Err(JwtError::DecodeError(e)) && e@ == ev,
    }
}

/// The authentication gate, run once per request before any handler: no
/// header fails with `MissingAuthHeader`; a header that is not valid
/// text or lacks the `Bearer ` prefix fails with `InvalidTokenFormat`;
/// otherwise the candidate token is verified against the policy at some
/// present instant, and either the claims come back or the rejection is
/// wrapped as `DecodeError`. On success the caller forwards the request
/// downstream.
pub fn jwt_middleware(header: Option<&Vec<u8>>, config: &JwtConfig) -> (r: Result<Claims, JwtError>)
    ensures
        header is None <==> r == Err::<Claims, JwtError>(JwtError::MissingAuthHeader),
        (header matches Some(h) && !(valid_header_text(h@) && has_bearer_prefix(h@))) <==> r
            == Err::<Claims, JwtError>(JwtError::InvalidTokenFormat),
        header matches Some(h) ==> ((valid_header_text(h@) && has_bearer_prefix(h@)) ==> exists|
            now: u64,
        |
            gate_matches(
                r,
                #[trigger] verify_model(
                    header_chars(bearer_token_bytes(h@)),
                    config.secret@,
                    config.validation,
                    now,
                ),
            )),
{
    let token = match extract_bearer(header) {
        Ok(t) => t,
        Err(e) => {
            return Err(e);
        },
    };
    match verify_jwt(token.as_str(), config) {
        Ok(c) => Ok(c),
        Err(e) => Err(JwtError::DecodeError(e)),
    }
}

} // verus!
