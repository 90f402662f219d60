use jwt_gate::claims::Claims;
use jwt_gate::config::JwtConfig;
use jwt_gate::errors::{JwtError, TokenError};
use jwt_gate::gate::{extract_bearer, jwt_middleware, verify_jwt, verify_jwt_at};
use jwt_gate::token::{generate_jwt, issue_at};

fn expect_ok<T, E>(r: Result<T, E>) -> T {
    match r {
        Ok(v) => v,
        Err(_) => panic!("expected success"),
    }
}

fn header_of(token: &str) -> Vec<u8> {
    format!("Bearer {}", token).into_bytes()
}

#[test]
fn missing_header_fails_with_missing_auth_header() {
    let cfg = JwtConfig::new("secret");
    let r = jwt_middleware(None, &cfg);
    assert!(matches!(r, Err(JwtError::MissingAuthHeader)));
}

#[test]
fn wrong_scheme_fails_with_invalid_token_format() {
    let cfg = JwtConfig::new("secret");
    let header = b"Basic abc123".to_vec();
    let r = jwt_middleware(Some(&header), &cfg);
    assert!(matches!(r, Err(JwtError::InvalidTokenFormat)));
}

#[test]
fn lowercase_scheme_fails_with_invalid_token_format() {
    let cfg = JwtConfig::new("secret");
    let header = b"bearer abc".to_vec();
    let r = jwt_middleware(Some(&header), &cfg);
    assert!(matches!(r, Err(JwtError::InvalidTokenFormat)));
}

#[test]
fn prefix_without_space_fails_with_invalid_token_format() {
    let cfg = JwtConfig::new("secret");
    let header = b"Bearer".to_vec();
    let r = jwt_middleware(Some(&header), &cfg);
    assert!(matches!(r, Err(JwtError::InvalidTokenFormat)));
}

#[test]
fn non_ascii_header_fails_with_invalid_token_format() {
    let cfg = JwtConfig::new("secret");
    let mut header = b"Bearer abc".to_vec();
    header.push(200);
    let r = jwt_middleware(Some(&header), &cfg);
    assert!(matches!(r, Err(JwtError::InvalidTokenFormat)));
}

#[test]
fn garbage_token_fails_with_decode_error() {
    let cfg = JwtConfig::new("secret");
    let header = b"Bearer not-a-real-token".to_vec();
    let r = jwt_middleware(Some(&header), &cfg);
    assert!(matches!(r, Err(JwtError::DecodeError(TokenError::Rejected(_)))));
}

#[test]
fn empty_candidate_token_fails_with_decode_error() {
    let cfg = JwtConfig::new("secret");
    let header = b"Bearer   ".to_vec();
    let r = jwt_middleware(Some(&header), &cfg);
    assert!(matches!(r, Err(JwtError::DecodeError(TokenError::Rejected(_)))));
}

#[test]
fn fresh_token_passes_gate_and_forwards_once() {
    let cfg = JwtConfig::new("secret");
    let token = expect_ok(generate_jwt("alice", "secret"));
    let header = header_of(&token);
    let mut downstream_calls = 0;
    let r = jwt_middleware(Some(&header), &cfg);
    if r.is_ok() {
        // the forwarding step the surrounding service performs on success
        downstream_calls += 1;
    }
    assert_eq!(downstream_calls, 1);
    let claims = expect_ok(r);
    assert_eq!(claims.sub, "alice");
    assert_eq!(claims.role, "default");
}

#[test]
fn gate_trims_blanks_around_token() {
    let cfg = JwtConfig::new("secret");
    let token = expect_ok(generate_jwt("bob", "secret"));
    let header = format!("Bearer  \t{} \t ", token).into_bytes();
    let claims = expect_ok(jwt_middleware(Some(&header), &cfg));
    assert_eq!(claims.sub, "bob");
}

#[test]
fn extract_bearer_returns_trimmed_candidate() {
    let header = b"Bearer   abc.def.ghi \t".to_vec();
    let token = expect_ok(extract_bearer(Some(&header)));
    assert_eq!(token, "abc.def.ghi");
}

#[test]
fn extract_bearer_keeps_inner_blanks() {
    let header = b"Bearer  a b\tc ".to_vec();
    let token = expect_ok(extract_bearer(Some(&header)));
    assert_eq!(token, "a b\tc");
}

#[test]
fn wrong_secret_fails_with_decode_error() {
    let token = expect_ok(generate_jwt("alice", "secret-one"));
    let cfg = JwtConfig::new("secret-two");
    let r = verify_jwt(token.as_str(), &cfg);
    assert!(matches!(r, Err(TokenError::Rejected(_))));
    let header = header_of(&token);
    let g = jwt_middleware(Some(&header), &cfg);
    assert!(matches!(g, Err(JwtError::DecodeError(TokenError::Rejected(_)))));
}

#[test]
fn expiry_window_boundaries() {
    let cfg = JwtConfig::new("secret");
    let token = expect_ok(issue_at("alice", "secret", 1000));
    // still before the expiration
    assert!(verify_jwt_at(token.as_str(), &cfg, 970).is_ok());
    // past the expiration by exactly the leeway: still accepted
    assert!(verify_jwt_at(token.as_str(), &cfg, 1060).is_ok());
    // past the expiration by more than the leeway: expired
    let r = verify_jwt_at(token.as_str(), &cfg, 1061);
    assert!(matches!(r, Err(TokenError::Expired)));
}

#[test]
fn expired_token_fails_and_leeway_token_passes_with_real_clock() {
    let cfg = JwtConfig::new("secret");
    let now = jsonwebtoken::get_current_timestamp();
    let stale = expect_ok(issue_at("alice", "secret", now - 120));
    let r = verify_jwt(stale.as_str(), &cfg);
    assert!(matches!(r, Err(TokenError::Expired)));
    let just_expired = expect_ok(issue_at("alice", "secret", now - 30));
    let claims = expect_ok(verify_jwt(just_expired.as_str(), &cfg));
    assert_eq!(claims.sub, "alice");
}

#[test]
fn verifying_twice_yields_same_success_result() {
    let cfg = JwtConfig::new("secret");
    let token = expect_ok(generate_jwt("carol", "secret"));
    let first: Claims = expect_ok(verify_jwt(token.as_str(), &cfg));
    let second: Claims = expect_ok(verify_jwt(token.as_str(), &cfg));
    assert_eq!(first.sub, second.sub);
    assert_eq!(first.exp, second.exp);
    assert_eq!(first.role, second.role);
}
