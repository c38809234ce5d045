//! The symmetric cipher behind every token: authenticated encryption under
//! one secret key, with the clock handed in by the caller.

use vstd::prelude::*;

verus! {

/// Seconds by which the timestamp sealed into a token may lie ahead of the
/// clock that checks it.
pub const MAX_CLOCK_SKEW: u64 = 60;

/// The error of `fernet::Fernet::decrypt_at_time`; it carries nothing.
#[verifier::external_type_specification]
#[verifier::external_body]
pub struct ExDecryptionError(fernet::DecryptionError);

/// Whether `fernet::Fernet::new` accepts `key`.
pub uninterp spec fn fernet_key_valid(key: Seq<char>) -> bool;

/// What `fernet::Fernet::decrypt_at_time` makes of `token` under `key` when
/// the clock reads `now` seconds and no time-to-live is asked for: the
/// plaintext, or `None` where it refuses the token.
pub uninterp spec fn fernet_opened(key: Seq<char>, token: Seq<char>, now: u64) -> Option<Seq<u8>>;

/// `token` opens to `plaintext` under `key` at every clock reading that is
/// not more than `MAX_CLOCK_SKEW` seconds behind `sealed_at`.
pub open spec fn opens_to(key: Seq<char>, token: Seq<char>, plaintext: Seq<u8>, sealed_at: u64) -> bool {
    forall|now: u64|
        sealed_at <= now + MAX_CLOCK_SKEW && now + MAX_CLOCK_SKEW <= u64::MAX
            ==> #[trigger] fernet_opened(key, token, now) == Some(plaintext)
}

/// A character of a token: an ASCII letter or digit, `-`, `_`, or the `=`
/// that pads its end.
pub open spec fn is_token_char(c: char) -> bool {
    ('a' <= c <= 'z') || ('A' <= c <= 'Z') || ('0' <= c <= '9') || c == '-' || c == '_' || c == '='
}

/// Text that can stand in a URL as it is: not empty, and of a token's
/// characters alone.
pub open spec fn url_safe_text(text: Seq<char>) -> bool {
    &&& text.len() > 0
    &&& forall|i: int| 0 <= i < text.len() ==> is_token_char(#[trigger] text[i])
}

/// Calls `fernet::Fernet::new` and reports whether it gave a cipher: the
/// crate accepts a key that is url-safe base64 of exactly 32 bytes.
#[verifier::external_body]
fn key_is_valid(key: &str) -> (b: bool)
    ensures
        b == fernet_key_valid(key@),
{
    fernet::Fernet::new(key).is_some()
}

/// Calls `fernet::Fernet::encrypt_at_time` under `key`. The token holds a
/// fresh random IV, so two calls differ; each result authenticates under the
/// same key and decrypts to `data` whenever the checking clock is within the
/// crate's skew allowance of `now`. The crate writes the token, which is
/// never empty, in url-safe base64 with padding. It panics where the system
/// has no randomness to give.
#[verifier::external_body]
fn seal_at(key: &str, data: &[u8], now: u64) -> (token: String)
    requires
        fernet_key_valid(key@),
    ensures
        opens_to(key@, token@, data@, now),
        url_safe_text(token@),
{
    fernet::Fernet::new(key).unwrap().encrypt_at_time(data, now)
}

/// Calls `fernet::Fernet::decrypt_at_time` under `key`, with no time-to-live.
/// The crate adds `MAX_CLOCK_SKEW` to `now`, which must not overflow.
#[verifier::external_body]
fn open_at(key: &str, token: &str, now: u64) -> (r: Result<Vec<u8>, fernet::DecryptionError>)
    requires
        fernet_key_valid(key@),
        now + MAX_CLOCK_SKEW <= u64::MAX,
    ensures
        r is Ok <==> fernet_opened(key@, token@, now) is Some,
        r matches Ok(plaintext) ==> fernet_opened(key@, token@, now) == Some(plaintext@),
{
    fernet::Fernet::new(key).unwrap().decrypt_at_time(token, None, now)
}

/// A key that the cipher accepts. It is checked once, when it is built, and
/// handed to every operation that needs it.
pub struct SecretKey {
    text: String,
}

impl View for SecretKey {
    type V = Seq<char>;

    closed spec fn view(&self) -> Seq<char> {
        self.text@
    }
}

impl SecretKey {
    #[verifier::type_invariant]
    spec fn accepted(self) -> bool {
        fernet_key_valid(self.text@)
    }

    /// Takes `text` as the key if the cipher accepts it.
    pub fn new(text: String) -> (key: Option<SecretKey>)
        ensures
            key is Some <==> fernet_key_valid(text@),
            key matches Some(k) ==> k@ == text@,
    {
        if key_is_valid(text.as_str()) {
            Some(SecretKey { text })
        } else {
            None
        }
    }
}

/// Why a token did not open: one opaque kind for a malformed encoding, a
/// failed authentication and a wrong key alike.
#[derive(Debug, PartialEq, Eq, Structural)]
pub struct DecryptError;

/// Seals `plaintext` into a token, stamped with the clock reading `now`.
/// The token is text that can stand in a URL as it is.
pub fn encrypt(key: &SecretKey, plaintext: &[u8], now: u64) -> (token: String)
    ensures
        opens_to(key@, token@, plaintext@, now),
        url_safe_text(token@),
{
    proof {
        use_type_invariant(key);
    }
    seal_at(key.text.as_str(), plaintext, now)
}

/// What `token` opens to under `key` at the clock reading `now`: what the
/// cipher makes of it, and nothing at a reading so late that the skew
/// allowance can no longer be added to it.
pub open spec fn opened(key: Seq<char>, token: Seq<char>, now: u64) -> Option<Seq<u8>> {
    if now + MAX_CLOCK_SKEW <= u64::MAX {
        fernet_opened(key, token, now)
    } else {
        None
    }
}

/// Opens `token` at the clock reading `now`: the plaintext it was sealed
/// with, or `DecryptError` where the cipher refuses it.
pub fn decrypt(key: &SecretKey, token: &str, now: u64) -> (r: Result<Vec<u8>, DecryptError>)
    ensures
        match opened(key@, token@, now) {
            Some(plaintext) => r matches Ok(bytes) && bytes@ == plaintext,
            None => r is Err,
        },
{
    proof {
        use_type_invariant(key);
    }
    if now > u64::MAX - MAX_CLOCK_SKEW {
        return Err(DecryptError);
    }
    match open_at(key.text.as_str(), token, now) {
        Ok(bytes) => Ok(bytes),
        Err(_) => Err(DecryptError),
    }
}

} // verus!
