//! A bearer-token authentication gate: issues HMAC-signed, time-bounded
//! tokens for authenticated subjects and validates them on incoming
//! requests before the request is forwarded to a protected handler.

pub mod claims;
pub mod config;
pub mod errors;
pub mod token;
pub mod gate;
pub mod laws;
