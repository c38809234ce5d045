use tentech_api::models::user::{TokenData, User};
use tentech_api::payload::{decode_payload, encode_payload, HEADER_LEN};
use tentech_api::time::Timestamp;

fn small() -> TokenData {
    TokenData {
        user: User {
            id: 1,
            username: "a".to_string(),
            nickname: String::new(),
            email: String::new(),
            password: String::new(),
            activated: false,
            activated_at: None,
        },
        expired_at: Timestamp { secs: 2, nanos: 3 },
    }
}

fn small_bytes() -> Vec<u8> {
    let mut bytes = vec![1, 0, 0, 0, 0, 0];
    bytes.extend_from_slice(&[0; 12]);
    bytes.extend_from_slice(&[2, 0, 0, 0, 0, 0, 0, 0, 3, 0, 0, 0]);
    bytes.extend_from_slice(&[1, 0, 0, 0, 0, 0, 0, 0]);
    bytes.extend_from_slice(&[0; 24]);
    bytes.push(b'a');
    bytes
}

fn full() -> TokenData {
    TokenData {
        user: User {
            id: -42,
            username: "anharu2394".to_string(),
            nickname: "安春".to_string(),
            email: "email@test.com".to_string(),
            password: "passpassword".to_string(),
            activated: true,
            activated_at: Some(Timestamp { secs: 1_577_836_800, nanos: 999_999_999 }),
        },
        expired_at: Timestamp { secs: u64::MAX, nanos: 0 },
    }
}

fn same(a: &TokenData, b: &TokenData) -> bool {
    a.user.id == b.user.id
        && a.user.username == b.user.username
        && a.user.nickname == b.user.nickname
        && a.user.email == b.user.email
        && a.user.password == b.user.password
        && a.user.activated == b.user.activated
        && a.user.activated_at == b.user.activated_at
        && a.expired_at == b.expired_at
}

#[test]
fn encoding_of_a_small_payload() {
    assert_eq!(HEADER_LEN, 62);
    assert_eq!(encode_payload(&small()), small_bytes());
}

#[test]
fn decoding_of_a_small_payload() {
    let data = decode_payload(&small_bytes()).expect("an encoding");
    assert!(same(&data, &small()));
}

#[test]
fn payload_round_trip() {
    let bytes = encode_payload(&full());
    assert_eq!(bytes.len(), 62 + 10 + 6 + 14 + 12);
    let back = decode_payload(&bytes).expect("an encoding");
    assert!(same(&back, &full()));
    assert_eq!(encode_payload(&back), bytes);
}

#[test]
fn truncated_payload_is_refused() {
    let bytes = encode_payload(&full());
    for n in 0..bytes.len() {
        assert!(decode_payload(&bytes[..n]).is_none(), "prefix of {} bytes", n);
    }
}

#[test]
fn trailing_bytes_are_refused() {
    let mut bytes = small_bytes();
    bytes.push(0);
    assert!(decode_payload(&bytes).is_none());
}

#[test]
fn flags_other_than_0_and_1_are_refused() {
    let mut bytes = small_bytes();
    bytes[4] = 2;
    assert!(decode_payload(&bytes).is_none());
    let mut bytes = small_bytes();
    bytes[5] = 2;
    assert!(decode_payload(&bytes).is_none());
}

#[test]
fn activation_time_without_its_flag_is_refused() {
    let mut bytes = small_bytes();
    bytes[6] = 1;
    assert!(decode_payload(&bytes).is_none());
    bytes[5] = 1;
    let data = decode_payload(&bytes).expect("the flag is set");
    assert_eq!(data.user.activated_at, Some(Timestamp { secs: 1, nanos: 0 }));
}

#[test]
fn a_second_of_nanoseconds_is_refused() {
    let mut bytes = small_bytes();
    bytes[26..30].copy_from_slice(&1_000_000_000u32.to_le_bytes());
    assert!(decode_payload(&bytes).is_none());
    bytes[26..30].copy_from_slice(&999_999_999u32.to_le_bytes());
    assert!(decode_payload(&bytes).is_some());
}

#[test]
fn text_that_is_not_utf8_is_refused() {
    let mut bytes = small_bytes();
    bytes[62] = 0xff;
    assert!(decode_payload(&bytes).is_none());
}

#[test]
fn lengths_that_do_not_add_up_are_refused() {
    let mut bytes = small_bytes();
    bytes[30] = 0;
    assert!(decode_payload(&bytes).is_none());
    let mut bytes = small_bytes();
    bytes[30..38].copy_from_slice(&u64::MAX.to_le_bytes());
    bytes[38..46].copy_from_slice(&2u64.to_le_bytes());
    assert!(decode_payload(&bytes).is_none());
}

#[test]
fn lengths_decide_where_one_text_ends() {
    let mut data = small();
    data.user.username = "ab".to_string();
    data.user.nickname = "c".to_string();
    let mut other = small();
    other.user.username = "a".to_string();
    other.user.nickname = "bc".to_string();
    assert_ne!(encode_payload(&data), encode_payload(&other));
    let back = decode_payload(&encode_payload(&other)).expect("an encoding");
    assert_eq!(back.user.nickname, "bc");
}
