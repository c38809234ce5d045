use tentech_api::email::activation_mail;
use tentech_api::error::TentechError;
use tentech_api::models::user::User;
use tentech_api::routes::users::{activate, read_activation_token};
use tentech_api::time::Timestamp;
use tentech_api::token::SecretKey;

const LINK: &str = "https://tentech.me/validate?token=";

fn test_key() -> SecretKey {
    SecretKey::new(format!("{}=", "A".repeat(43))).expect("a key of 32 bytes")
}

fn newcomer() -> User {
    User {
        id: 3,
        username: "create_test".to_string(),
        nickname: "create test".to_string(),
        email: "create_test@test.com".to_string(),
        password: "hash".to_string(),
        activated: false,
        activated_at: None,
    }
}

fn at(secs: u64) -> Timestamp {
    Timestamp { secs, nanos: 0 }
}

#[test]
fn mail_goes_to_the_user_with_the_link() {
    let mail = activation_mail(
        &"create_test@test.com".to_string(),
        &"create test".to_string(),
        &"abc%3D".to_string(),
    );
    assert_eq!(mail.to_email, "create_test@test.com");
    assert_eq!(mail.to_name, "create test");
    assert_eq!(mail.subject, "Hi, access to this link to activate your account.");
    assert_eq!(mail.text, "https://tentech.me/validate?token=abc%3D");
}

#[test]
fn prepared_mail_carries_a_token_that_reads_back() {
    let key = test_key();
    let mail = newcomer().prepare_activate(&key, at(1_600_000_000));
    assert_eq!(mail.to_email, "create_test@test.com");
    assert_eq!(mail.to_name, "create test");
    assert!(mail.text.starts_with(LINK));
    let raw = mail.text[LINK.len()..].to_string();
    assert!(raw.bytes().all(|b| b.is_ascii_alphanumeric() || b == b'%'));
    let data = read_activation_token(&key, &raw, at(1_600_000_030)).expect("a fresh link");
    assert_eq!(data.user.id, 3);
    assert_eq!(data.user.email, "create_test@test.com");
    assert_eq!(data.expired_at, at(1_600_086_400));
}

#[test]
fn link_that_carries_no_token_cannot_be_decrypted() {
    let key = test_key();
    for raw in ["", "garbage", "%ff", "gAAAAA%3D%3D"] {
        let r = read_activation_token(&key, &raw.to_string(), at(1_600_000_000));
        assert!(matches!(r, Err(TentechError::CannotDecryptToken)), "{}", raw);
    }
}

#[test]
fn account_is_activated_on_a_valid_token() {
    let data = newcomer().to_token_data(at(1_600_000_000));
    assert!(activate(&data, &newcomer(), at(1_600_000_001)).is_ok());
    assert!(activate(&data, &newcomer(), at(1_600_086_399)).is_ok());
}

#[test]
fn activated_account_is_not_activated_again() {
    let data = newcomer().to_token_data(at(1_600_000_000));
    let mut target = newcomer();
    target.activated = true;
    let r = activate(&data, &target, at(1_600_000_001));
    assert!(matches!(r, Err(TentechError::AlreadyActivated)));
    let late = activate(&data, &target, at(1_700_000_000));
    assert!(matches!(late, Err(TentechError::AlreadyActivated)));
}

#[test]
fn expired_token_activates_nothing() {
    let data = newcomer().to_token_data(at(1_600_000_000));
    let r = activate(&data, &newcomer(), at(1_600_086_400));
    assert!(matches!(r, Err(TentechError::TokenExpired)));
}
