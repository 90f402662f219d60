//! The library's general laws, stated over the verification model and
//! proved once for all inputs. Each holds of `verify_jwt_at` and of the
//! gate through their contracts, which pin the executable result to
//! `verify_model`.

use vstd::prelude::*;
use crate::claims::ClaimsView;
use crate::config::Validation;
use crate::errors::TokenErrorView;
use crate::gate::{
    ascii_bytes, bearer_prefix_bytes, bearer_token_bytes, has_bearer_prefix, header_chars,
    trim_back, trim_front, valid_header_text, verify_model, visible_ascii_byte, ws_byte,
};
use crate::token::{compact_jwt_form, decoded_of, issued_view, role_default, token_char};

verus! {

/// A well-formed compact token survives the header walk: the header
/// `Bearer ` + token is valid header text and carries the scheme prefix,
/// and the candidate the header yields is the token itself, character
/// for character — so an issued token presented as a bearer credential
/// reaches signature verification unchanged.
pub proof fn lemma_issued_token_reaches_verification(h: Seq<u8>, t: Seq<char>)
    ensures
        (h == bearer_prefix_bytes() + ascii_bytes(t) && compact_jwt_form(t)) ==> (
        valid_header_text(h) && has_bearer_prefix(h) && header_chars(bearer_token_bytes(h)) == t),
{
    if h == bearer_prefix_bytes() + ascii_bytes(t) && compact_jwt_form(t) {
        let p = bearer_prefix_bytes();
        assert(p.len() == 7);
        assert(h.len() == 7 + t.len());
        assert forall|i: int| 0 <= i < t.len() implies {
            &&& h[7 + i] == t[i] as u8
            &&& visible_ascii_byte(h[7 + i])
            &&& !ws_byte(h[7 + i])
        } by {
            assert(token_char(t[i]));
            assert(h[7 + i] == ascii_bytes(t)[i]);
        }
        assert(valid_header_text(h)) by {
            assert forall|i: int| 0 <= i < h.len() implies visible_ascii_byte(#[trigger] h[i]) by {
                if i < 7 {
                    assert(h[i] == p[i]);
                } else {
                    assert(visible_ascii_byte(h[i]));
                }
            }
        }
        assert(has_bearer_prefix(h));
        let body = h.subrange(7, h.len() as int);
        assert(body =~= ascii_bytes(t));
        if t.len() == 0 {
            assert(bearer_token_bytes(h) == body);
        } else {
            assert(!ws_byte(body[0]));
            assert(!ws_byte(body[body.len() - 1]));
            assert(trim_front(body) == body);
            assert(trim_back(body) == body);
        }
        assert(header_chars(bearer_token_bytes(h)) =~= t) by {
            assert forall|i: int| 0 <= i < t.len() implies header_chars(ascii_bytes(t))[i]
                == t[i] by {
                assert(token_char(t[i]));
            }
        }
    }
}

/// Issue, then verify: a token that decodes under `secret` to exactly
/// the claims issued for `sub` with expiration `exp` — which `issue_at`
/// and `generate_jwt` guarantee of every token they return — passes
/// verification under the same secret at every instant `now` not past
/// the expiration by more than the leeway, and verification recovers the
/// subject unchanged.
pub proof fn lemma_issue_verify_round_trip(
    token: Seq<char>,
    sub: Seq<char>,
    exp: u64,
    secret: Seq<char>,
    v: Validation,
    now: u64,
)
    ensures
        (decoded_of(token, secret) == Some(issued_view(sub, exp)) && now <= exp + v.leeway)
            ==> verify_model(token, secret, v, now) == Ok::<ClaimsView, TokenErrorView>(
            ClaimsView { sub, exp, role: role_default() },
        ),
{
}

/// A token that does not decode under the secret the verifier holds —
/// one issued under a different secret, or no issued token at all — is
/// rejected outright, whatever the policy and whatever the instant.
pub proof fn lemma_undecodable_token_rejected(
    token: Seq<char>,
    secret: Seq<char>,
    v: Validation,
    now: u64,
)
    ensures
        decoded_of(token, secret) is None ==> verify_model(token, secret, v, now) == Err::<
            ClaimsView,
            TokenErrorView,
        >(TokenErrorView::Rejected),
{
}

/// The expiry window. With the expiration check on, an issued token
/// whose `exp` lies more than the leeway before `now` fails as expired;
/// one whose `exp` lies within the leeway — thirty seconds ago, say,
/// under the sixty-second leeway — still verifies.
pub proof fn lemma_expiry_window(
    token: Seq<char>,
    sub: Seq<char>,
    exp: u64,
    secret: Seq<char>,
    v: Validation,
    now: u64,
)
    ensures
        (decoded_of(token, secret) == Some(issued_view(sub, exp)) && v.validate_exp && exp
            + v.leeway < now) ==> verify_model(token, secret, v, now) == Err::<
            ClaimsView,
            TokenErrorView,
        >(TokenErrorView::Expired),
        (decoded_of(token, secret) == Some(issued_view(sub, exp)) && now <= exp + v.leeway)
            ==> verify_model(token, secret, v, now) is Ok,
{
}

/// A fresh bearer request is accepted end to end: a request whose
/// `Authorization` header is `Bearer ` + an issued compact token, read
/// at any instant `now` not past the token's expiration by more than
/// the leeway, walks the header, passes verification under the issuing
/// secret, and recovers the subject unchanged — the claims handed back
/// for forwarding.
pub proof fn lemma_fresh_bearer_request_accepted(
    h: Seq<u8>,
    t: Seq<char>,
    sub: Seq<char>,
    exp: u64,
    secret: Seq<char>,
    v: Validation,
    now: u64,
)
    ensures
        (h == bearer_prefix_bytes() + ascii_bytes(t) && compact_jwt_form(t) && decoded_of(t, secret)
            == Some(issued_view(sub, exp)) && now <= exp + v.leeway) ==> (valid_header_text(h)
            && has_bearer_prefix(h) && verify_model(header_chars(bearer_token_bytes(h)), secret, v, now)
            == Ok::<ClaimsView, TokenErrorView>(ClaimsView { sub, exp, role: role_default() })),
{
    lemma_issued_token_reaches_verification(h, t);
    lemma_issue_verify_round_trip(t, sub, exp, secret, v, now);
}

/// Verification has no consumption or replay-invalidation side effect:
/// it is a pure function of token, secret, policy and instant, so two
/// verifications of the same token under the same policy at the same
/// instant yield the same outcome.
pub proof fn lemma_verify_idempotent(
    r1: Result<ClaimsView, TokenErrorView>,
    r2: Result<ClaimsView, TokenErrorView>,
    token: Seq<char>,
    secret: Seq<char>,
    v: Validation,
    now: u64,
)
    ensures
        (r1 == verify_model(token, secret, v, now) && r2 == verify_model(token, secret, v, now))
            ==> r1 == r2,
{
}

} // verus!
