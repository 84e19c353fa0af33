use auth_core::gate::{authenticate_request, GateOutcome};
use auth_core::token::{Keys, TokenError};

#[test]
fn login_path_passes_without_header() {
    let keys = Keys::generate();
    let outcome = authenticate_request("/users/login", None, &keys, 0);
    assert!(matches!(outcome, GateOutcome::Public));
}

#[test]
fn login_path_passes_whatever_the_header_holds() {
    let keys = Keys::generate();
    let header = String::from("Bearer complete-garbage");
    let outcome = authenticate_request("/users/login", Some(&header), &keys, 0);
    assert!(matches!(outcome, GateOutcome::Public));
}

#[test]
fn protected_path_without_header_is_missing_authorization() {
    let keys = Keys::generate();
    let outcome = authenticate_request("/users", None, &keys, 0);
    assert!(matches!(outcome, GateOutcome::MissingAuthorization));
}

#[test]
fn valid_bearer_token_is_authenticated() {
    let keys = Keys::generate();
    let now: i64 = 1_700_000_000;
    let token = keys.issue(&String::from("jane@x.com"), now);
    let header = format!("Bearer {}", token);
    match authenticate_request("/users", Some(&header), &keys, now) {
        GateOutcome::Authenticated(claims) => assert_eq!(claims.email, "jane@x.com"),
        _ => panic!("a valid bearer token must authenticate"),
    }
}

#[test]
fn bare_token_without_prefix_is_authenticated() {
    let keys = Keys::generate();
    let now: i64 = 1_700_000_000;
    let token = keys.issue(&String::from("jane@x.com"), now);
    match authenticate_request("/user/1", Some(&token), &keys, now) {
        GateOutcome::Authenticated(claims) => assert_eq!(claims.email, "jane@x.com"),
        _ => panic!("a bare token must authenticate"),
    }
}

#[test]
fn tampered_bearer_token_is_rejected() {
    let keys = Keys::generate();
    let now: i64 = 1_700_000_000;
    let token = keys.issue(&String::from("jane@x.com"), now);
    let mut chars: Vec<char> = token.chars().collect();
    let last = chars.len() - 1;
    chars[last] = if chars[last] == 'A' { 'B' } else { 'A' };
    let tampered: String = chars.into_iter().collect();
    let header = format!("Bearer {}", tampered);
    let outcome = authenticate_request("/users", Some(&header), &keys, now);
    assert!(matches!(outcome, GateOutcome::Rejected(TokenError::InvalidToken)));
}

#[test]
fn expired_bearer_token_is_rejected() {
    let keys = Keys::generate();
    let token = keys.issue(&String::from("jane@x.com"), 1_000);
    let header = format!("Bearer {}", token);
    let outcome = authenticate_request("/users", Some(&header), &keys, 1_000_000_000);
    assert!(matches!(outcome, GateOutcome::Rejected(TokenError::ExpiredToken)));
}

#[test]
fn empty_header_value_is_rejected_as_invalid() {
    let keys = Keys::generate();
    let header = String::new();
    let outcome = authenticate_request("/users", Some(&header), &keys, 0);
    assert!(matches!(outcome, GateOutcome::Rejected(TokenError::InvalidToken)));
}
