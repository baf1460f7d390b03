use frostflake::session::Session;
use frostflake::token::{TokenAuthority, TokenError};

#[test]
fn new_authority_has_no_live_token() {
    let auth = TokenAuthority::new();
    assert!(!auth.contains_token(0));
    assert!(!auth.contains_token(u128::MAX));
}

#[test]
fn declined_request_mints_nothing() {
    let mut auth = TokenAuthority::new();
    assert_eq!(auth.request_token(false), Err(TokenError::Denied));
}

#[test]
fn approved_request_mints_a_live_token() {
    let mut auth = TokenAuthority::new();
    let t = auth.request_token(true).unwrap();
    assert!(auth.contains_token(t));
    let u = auth.request_token(true).unwrap();
    assert_ne!(t, u);
    assert!(auth.contains_token(t));
    assert!(auth.contains_token(u));
}

#[test]
fn tokens_never_returned_are_not_valid() {
    let mut auth = TokenAuthority::new();
    let t = auth.request_token(true).unwrap();
    assert!(!auth.contains_token(t.wrapping_add(1)));
    assert!(!auth.contains_token(t ^ 0xFFFF));
    assert_eq!(auth.grant(false, 42), Err(TokenError::Denied));
    assert!(!auth.contains_token(42));
}

#[test]
fn grant_refuses_a_live_value() {
    let mut auth = TokenAuthority::new();
    assert_eq!(auth.grant(true, 7), Ok(7));
    assert_eq!(auth.grant(true, 7), Err(TokenError::Collision));
    assert!(auth.contains_token(7));
}

#[test]
fn upgrade_with_live_token_succeeds() {
    let mut auth = TokenAuthority::new();
    let t = auth.request_token(true).unwrap();
    let s = Session::upgrade(&auth, Some(t)).unwrap();
    assert_eq!(s.token(), t);
    assert!(!s.tool_running());
}

#[test]
fn upgrade_with_unknown_token_fails() {
    let mut auth = TokenAuthority::new();
    let t = auth.request_token(true).unwrap();
    assert!(Session::upgrade(&auth, Some(t.wrapping_add(1))).is_err());
    assert!(Session::upgrade(&auth, None).is_err());
}

#[test]
fn open_reads_the_token_from_the_channel_path() {
    let mut auth = TokenAuthority::new();
    let t = auth.request_token(true).unwrap();
    let text = uuid::Uuid::from_u128(t).to_string();
    let path = format!("/channel/{}", text);
    let s = Session::open(&auth, &path).unwrap();
    assert_eq!(s.token(), t);
    let simple = format!("/ws/{}", uuid::Uuid::from_u128(t).simple());
    assert!(Session::open(&auth, &simple).is_ok());
}

#[test]
fn open_refuses_unknown_or_malformed_tokens() {
    let mut auth = TokenAuthority::new();
    let t = auth.request_token(true).unwrap();
    let other = uuid::Uuid::from_u128(t.wrapping_add(1)).to_string();
    assert!(Session::open(&auth, &format!("/channel/{}", other)).is_err());
    assert!(Session::open(&auth, "/channel/T1").is_err());
    assert!(Session::open(&auth, "/channel/").is_err());
    let text = uuid::Uuid::from_u128(t).to_string();
    assert!(Session::open(&auth, &format!("/channel/{}/x", text)).is_err());
}

#[test]
fn approved_requests_yield_distinct_fresh_tokens() {
    let mut auth = TokenAuthority::new();
    let mut seen = Vec::new();
    for _ in 0..16 {
        let t = auth.request_token(true).unwrap();
        assert!(!seen.contains(&t));
        seen.push(t);
    }
    assert!(seen.iter().all(|t| auth.contains_token(*t)));
}
