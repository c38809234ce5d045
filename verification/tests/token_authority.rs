use tentech_api::models::user::{check_valid, TokenData, TokenError, User, TOKEN_LIFETIME_SECS};
use tentech_api::time::Timestamp;
use tentech_api::token::{decrypt, encrypt, DecryptError, SecretKey};

fn test_key() -> SecretKey {
    SecretKey::new(format!("{}=", "A".repeat(43))).expect("a key of 32 bytes")
}

fn other_key() -> SecretKey {
    SecretKey::new(format!("{}A=", "B".repeat(42))).expect("a key of 32 bytes")
}

fn sample_user() -> User {
    User {
        id: 7,
        username: "anharu2394".to_string(),
        nickname: "anharu".to_string(),
        email: "email@test.com".to_string(),
        password: "$rscrypt$0$DggB$salt$hash$".to_string(),
        activated: true,
        activated_at: Some(Timestamp { secs: 1_577_836_800, nanos: 123_456_789 }),
    }
}

fn at(secs: u64) -> Timestamp {
    Timestamp { secs, nanos: 0 }
}

fn same_user(a: &User, b: &User) -> bool {
    a.id == b.id
        && a.username == b.username
        && a.nickname == b.nickname
        && a.email == b.email
        && a.password == b.password
        && a.activated == b.activated
        && a.activated_at == b.activated_at
}

#[test]
fn key_must_be_32_bytes_of_url_safe_base64() {
    assert!(SecretKey::new("too short".to_string()).is_none());
    assert!(SecretKey::new(format!("{}=", "A".repeat(42))).is_none());
    assert!(SecretKey::new(format!("{}=", "A".repeat(43))).is_some());
}

#[test]
fn cipher_round_trip() {
    let key = test_key();
    let token = encrypt(&key, b"my top secret message!", 1_600_000_000);
    assert_ne!(token.as_bytes(), b"my top secret message!");
    assert_eq!(decrypt(&key, &token, 1_600_000_000), Ok(b"my top secret message!".to_vec()));
}

#[test]
fn cipher_allows_sixty_seconds_of_skew() {
    let key = test_key();
    let token = encrypt(&key, b"abc", 1_600_000_060);
    assert_eq!(decrypt(&key, &token, 1_600_000_000), Ok(b"abc".to_vec()));
    assert_eq!(decrypt(&key, &token, 1_599_999_999), Err(DecryptError));
}

#[test]
fn cipher_refuses_another_key() {
    let token = encrypt(&test_key(), b"abc", 1_600_000_000);
    assert_eq!(decrypt(&other_key(), &token, 1_600_000_000), Err(DecryptError));
}

#[test]
fn cipher_refuses_what_is_no_token() {
    assert_eq!(decrypt(&test_key(), "", 1_600_000_000), Err(DecryptError));
    assert_eq!(decrypt(&test_key(), "not base64 !!", 1_600_000_000), Err(DecryptError));
}

#[test]
fn token_is_url_safe_text() {
    let token = sample_user().generate_token(&test_key(), at(1_600_000_000));
    assert!(token
        .bytes()
        .all(|b| b.is_ascii_alphanumeric() || b == b'-' || b == b'_' || b == b'='));
}

#[test]
fn issue_then_verify_gives_the_user_back() {
    let key = test_key();
    let user = sample_user();
    let token = user.generate_token(&key, at(1_600_000_000));
    let data = TokenData::decode(&key, token, at(1_600_000_000)).expect("a fresh token");
    assert!(same_user(&data.user, &user));
    assert_eq!(data.expired_at, at(1_600_000_000 + 86_400));
}

#[test]
fn payload_expires_one_lifetime_after_issue() {
    let data = sample_user().to_token_data(Timestamp { secs: 1_000, nanos: 5 });
    assert_eq!(TOKEN_LIFETIME_SECS, 86_400);
    assert_eq!(data.expired_at, Timestamp { secs: 87_400, nanos: 5 });
    assert!(same_user(&data.user, &sample_user()));
}

#[test]
fn verify_returns_the_payload_whether_or_not_it_expired() {
    let key = test_key();
    let token = sample_user().generate_token(&key, at(1_600_000_000));
    let late = at(1_600_000_000 + 10 * 86_400);
    let data = TokenData::decode(&key, token, late).expect("decodes after expiry");
    assert!(data.check_expired(late));
}

#[test]
fn tampering_with_any_byte_is_detected() {
    let key = test_key();
    let token = sample_user().generate_token(&key, at(1_600_000_000));
    for i in 0..token.len() {
        let mut bytes = token.clone().into_bytes();
        bytes[i] ^= 0x01;
        let forged = String::from_utf8(bytes).expect("ASCII stays ASCII");
        assert!(TokenData::decode(&key, forged, at(1_600_000_000)).is_err(), "byte {}", i);
    }
}

#[test]
fn expiry_boundary() {
    let t0: u64 = 1_600_000_000;
    let data = sample_user().to_token_data(at(t0));
    assert!(!data.check_expired(at(t0)));
    assert!(!data.check_expired(at(t0 + 23 * 3600 + 59 * 60)));
    assert!(!data.check_expired(Timestamp { secs: t0 + 86_399, nanos: 999_999_999 }));
    assert!(data.check_expired(at(t0 + 86_400)));
    assert!(data.check_expired(at(t0 + 86_401)));
}

#[test]
fn token_accepted_before_and_refused_after_24_hours() {
    let key = test_key();
    let t0: u64 = 1_600_000_000;
    let token = sample_user().generate_token(&key, at(t0));
    let accepted = check_valid(&key, &token, at(t0 + 23 * 3600 + 59 * 60));
    assert!(same_user(&accepted.expect("still valid").user, &sample_user()));
    assert!(check_valid(&key, &token, at(t0 + 24 * 3600 + 1)).is_err());
}

#[test]
fn every_guard_failure_is_unauthorized() {
    assert_eq!(TokenError::Missing.status(), 401);
    assert_eq!(TokenError::BadCount.status(), 401);
    assert_eq!(TokenError::Invalid.status(), 401);
}

#[test]
fn token_over_nothing_is_url_safe_text_too() {
    let token = encrypt(&test_key(), b"", 1_600_000_000);
    assert!(!token.is_empty());
    assert!(token
        .bytes()
        .all(|b| b.is_ascii_alphanumeric() || b == b'-' || b == b'_' || b == b'='));
    let long = encrypt(&test_key(), &[0xffu8; 1000], 1_600_000_000);
    assert!(long
        .bytes()
        .all(|b| b.is_ascii_alphanumeric() || b == b'-' || b == b'_' || b == b'='));
}

#[test]
fn guard_without_header_is_missing() {
    let r = TokenData::from_request(&test_key(), &vec![], at(1_600_000_000));
    assert_eq!(r.err(), Some(TokenError::Missing));
}

#[test]
fn guard_with_two_headers_is_bad_count() {
    let key = test_key();
    let token = sample_user().generate_token(&key, at(1_600_000_000));
    let r = TokenData::from_request(&key, &vec![token.clone(), token], at(1_600_000_000));
    assert_eq!(r.err(), Some(TokenError::BadCount));
}

#[test]
fn guard_with_malformed_header_is_invalid() {
    let r = TokenData::from_request(&test_key(), &vec!["garbage".to_string()], at(1_600_000_000));
    assert_eq!(r.err(), Some(TokenError::Invalid));
}

#[test]
fn guard_with_expired_token_is_invalid() {
    let key = test_key();
    let token = sample_user().generate_token(&key, at(1_600_000_000));
    let r = TokenData::from_request(&key, &vec![token], at(1_600_000_000 + 86_400));
    assert_eq!(r.err(), Some(TokenError::Invalid));
}

#[test]
fn guard_with_valid_token_gives_the_identity() {
    let key = test_key();
    let token = sample_user().generate_token(&key, at(1_600_000_000));
    let r = TokenData::from_request(&key, &vec![token], at(1_600_000_100));
    assert!(same_user(&r.expect("a valid token").user, &sample_user()));
}

#[test]
fn key_with_stray_trailing_bits_is_refused() {
    assert!(SecretKey::new(format!("{}=", "B".repeat(43))).is_none());
}

#[test]
fn two_tokens_for_one_user_differ_and_both_verify() {
    let key = test_key();
    let a = sample_user().generate_token(&key, at(1_600_000_000));
    let b = sample_user().generate_token(&key, at(1_600_000_000));
    assert_ne!(a, b);
    assert!(TokenData::decode(&key, a, at(1_600_000_000)).is_ok());
    assert!(TokenData::decode(&key, b, at(1_600_000_000)).is_ok());
}

#[test]
fn token_sealed_over_something_else_is_malformed() {
    let key = test_key();
    let token = encrypt(&key, b"{\"id\":1}", 1_600_000_000);
    assert!(TokenData::decode(&key, token, at(1_600_000_000)).is_err());
}

#[test]
fn snapshot_is_not_refreshed() {
    let key = test_key();
    let mut user = sample_user();
    user.activated = false;
    user.activated_at = None;
    let token = user.generate_token(&key, at(1_600_000_000));
    user.activated = true;
    let data = TokenData::decode(&key, token, at(1_600_000_001)).expect("a fresh token");
    assert!(!data.user.activated);
    assert_eq!(data.user.activated_at, None);
}

#[test]
fn nothing_opens_at_the_end_of_time() {
    let key = test_key();
    let token = encrypt(&key, b"abc", u64::MAX - 60);
    assert_eq!(decrypt(&key, &token, u64::MAX - 60), Ok(b"abc".to_vec()));
    assert_eq!(decrypt(&key, &token, u64::MAX - 59), Err(DecryptError));
    assert_eq!(decrypt(&key, &token, u64::MAX), Err(DecryptError));
    assert!(check_valid(&key, &token, at(u64::MAX)).is_err());
}
