//! The error taxonomy of the request gate, and the reasons token verification
//! can refuse a candidate token.

use vstd::prelude::*;

verus! {

/// The error type of the `jsonwebtoken` crate, declared so that the
/// cause of a decoder rejection can be carried through the library.
#[verifier::external_type_specification]
#[verifier::external_body]
pub struct ExJsonwebtokenError(jsonwebtoken::errors::Error);

/// Why token verification refused a candidate token.
#[derive(Debug)]
pub enum TokenError {
    /// The decoder refused the token outright: not three segments, an
    /// undecodable part, a wrong algorithm, or a signature that does not
    /// match the secret. Carries the decoder's own error.
    Rejected(jsonwebtoken::errors::Error),
    /// The payload carries no `sub` claim of string type.
    MissingSubject,
    /// The payload carries no `exp` claim of integer type.
    MissingExpiry,
    /// The payload carries no `role` claim of string type.
    MissingRole,
    /// The `exp` timestamp lies more than the leeway in the past.
    Expired,
    /// The `nbf` timestamp lies more than the leeway in the future.
    NotYetValid,
}

/// Mathematical image of `TokenError`: the reason alone, with the
/// decoder's opaque error value dropped.
pub enum TokenErrorView {
    Rejected,
    MissingSubject,
    MissingExpiry,
    MissingRole,
    Expired,
    NotYetValid,
}

impl View for TokenError {
    type V = TokenErrorView;

    open spec fn view(&self) -> TokenErrorView {
        match self {
            TokenError::Rejected(_) => TokenErrorView::Rejected,
            TokenError::MissingSubject => TokenErrorView::MissingSubject,
            TokenError::MissingExpiry => TokenErrorView::MissingExpiry,
            TokenError::MissingRole => TokenErrorView::MissingRole,
            TokenError::Expired => TokenErrorView::Expired,
            TokenError::NotYetValid => TokenErrorView::NotYetValid,
        }
    }
}

/// Everything that can stop a request from being forwarded.
#[derive(Debug)]
pub enum JwtError {
    /// The request carries no `Authorization` header.
    MissingAuthHeader,
    /// The header is present but is not valid header text, or does not
    /// carry the `Bearer ` scheme prefix.
    InvalidTokenFormat,
    /// The candidate token failed verification.
    DecodeError(TokenError),
}

} // verus!
