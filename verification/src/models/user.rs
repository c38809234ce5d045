//! A user's record, and the snapshot of it that a token carries.

use crate::email::{activation_mail, link_prefix, mail_subject, ActivationMail};
use crate::error::STATUS_UNAUTHORIZED;
use crate::payload::{decode_payload, encode_payload, encoded, lemma_parse_encoded, parsed};
use crate::time::Timestamp;
use crate::token::{
    decrypt, encrypt, opened, opens_to, url_safe_text, DecryptError, SecretKey, MAX_CLOCK_SKEW,
};
use crate::urlcode::{percent_encoded, url_encode};
use vstd::prelude::*;
use vstd::utf8::encode_utf8;

verus! {

/// The request header that carries the token of a session.
pub const API_KEY_HEADER: &'static str = "x-api-key";

/// Seconds for which an issued token stays valid: 24 hours.
pub const TOKEN_LIFETIME_SECS: u64 = 86_400;

/// A user's public record.
#[derive(Debug)]
pub struct User {
    pub id: i32,
    pub username: String,
    pub nickname: String,
    pub email: String,
    pub password: String,
    pub activated: bool,
    pub activated_at: Option<Timestamp>,
}

/// What a `User` holds, as plain values.
pub struct UserView {
    pub id: i32,
    pub username: Seq<char>,
    pub nickname: Seq<char>,
    pub email: Seq<char>,
    pub password: Seq<char>,
    pub activated: bool,
    pub activated_at: Option<Timestamp>,
}

/// A text whose UTF-8 length a 64-bit count can hold.
pub open spec fn text_fits(text: Seq<char>) -> bool {
    encode_utf8(text).len() <= u64::MAX
}

impl UserView {
    /// The activation time, where there is one, is a well-formed instant, and
    /// every text has a length that can be written down.
    pub open spec fn wf(&self) -> bool {
        &&& self.activated_at matches Some(t) ==> t.wf()
        &&& text_fits(self.username)
        &&& text_fits(self.nickname)
        &&& text_fits(self.email)
        &&& text_fits(self.password)
    }
}

impl View for User {
    type V = UserView;

    open spec fn view(&self) -> UserView {
        UserView {
            id: self.id,
            username: self.username@,
            nickname: self.nickname@,
            email: self.email@,
            password: self.password@,
            activated: self.activated,
            activated_at: self.activated_at,
        }
    }
}

impl Clone for User {
    fn clone(&self) -> (copy: User)
        ensures
            copy@ == self@,
    {
        User {
            id: self.id,
            username: self.username.clone(),
            nickname: self.nickname.clone(),
            email: self.email.clone(),
            password: self.password.clone(),
            activated: self.activated,
            activated_at: self.activated_at,
        }
    }
}

impl User {
    /// The activation time, where there is one, is a well-formed instant.
    pub open spec fn wf(&self) -> bool {
        self.activated_at matches Some(t) ==> t.wf()
    }
}

/// What a token carries: the user as it was when the token was issued, and
/// the instant from which the token no longer counts.
#[derive(Debug)]
pub struct TokenData {
    pub user: User,
    pub expired_at: Timestamp,
}

/// What a `TokenData` holds, as plain values.
pub struct TokenDataView {
    pub user: UserView,
    pub expired_at: Timestamp,
}

impl TokenDataView {
    pub open spec fn wf(&self) -> bool {
        self.user.wf() && self.expired_at.wf()
    }
}

impl View for TokenData {
    type V = TokenDataView;

    open spec fn view(&self) -> TokenDataView {
        TokenDataView { user: self.user@, expired_at: self.expired_at }
    }
}

impl Clone for TokenData {
    fn clone(&self) -> (copy: TokenData)
        ensures
            copy@ == self@,
    {
        TokenData { user: self.user.clone(), expired_at: self.expired_at }
    }
}

/// The payload of a token issued for `user` at `now`: the user as it is,
/// and an expiry one token lifetime later.
pub open spec fn token_data_at(user: UserView, now: Timestamp) -> TokenDataView {
    TokenDataView { user, expired_at: now.later_by(TOKEN_LIFETIME_SECS as int) }
}

/// `token` is one that may be issued for `user` at `now` under `key`: it
/// opens to the encoding of that payload.
pub open spec fn issued(key: Seq<char>, user: UserView, now: Timestamp, token: Seq<char>) -> bool {
    opens_to(key, token, encoded(token_data_at(user, now)), now.secs)
}

/// The payload that `token` carries under `key` when the clock reads
/// `now_secs` seconds, or `None` where the cipher refuses the token or what
/// it holds is no payload. The expiry plays no part in it.
pub open spec fn decoded(key: Seq<char>, token: Seq<char>, now_secs: u64) -> Option<TokenDataView> {
    match opened(key, token, now_secs) {
        Some(bytes) => parsed(bytes),
        None => None,
    }
}

/// A payload has expired once the clock has reached its expiry: it counts
/// while `now` comes before `expired_at`, and no longer from that instant on.
pub open spec fn expired(data: TokenDataView, now: Timestamp) -> bool {
    !now.precedes(data.expired_at)
}

/// The payload that `token` carries, where it carries one that has not
/// expired at `now`.
pub open spec fn checked(key: Seq<char>, token: Seq<char>, now: Timestamp) -> Option<TokenDataView> {
    match decoded(key, token, now.secs) {
        Some(data) => if expired(data, now) {
            None
        } else {
            Some(data)
        },
        None => None,
    }
}

/// Why a request was turned away at the guard.
#[derive(Clone, Copy, Debug, PartialEq, Eq, Structural)]
pub enum TokenError {
    /// The credential header appeared more than once.
    BadCount,
    /// The credential header was absent.
    Missing,
    /// The one credential given did not open, held no payload, or had expired.
    Invalid,
}

impl TokenError {
    /// The HTTP status that a request turned away at the guard is answered
    /// with: unauthorized, whatever the reason.
    pub fn status(&self) -> (code: u16)
        ensures
            code == STATUS_UNAUTHORIZED,
    {
        STATUS_UNAUTHORIZED
    }
}

/// What the guard makes of the values of the credential header, in the order
/// the rules are tried: none is `Missing`, several are `BadCount`, and one is
/// the payload it carries or `Invalid`.
pub open spec fn guarded(key: Seq<char>, keys: Seq<Seq<char>>, now: Timestamp) -> Result<
    TokenDataView,
    TokenError,
> {
    if keys.len() == 0 {
        Err(TokenError::Missing)
    } else if keys.len() > 1 {
        Err(TokenError::BadCount)
    } else {
        match checked(key, keys[0], now) {
            Some(data) => Ok(data),
            None => Err(TokenError::Invalid),
        }
    }
}

impl User {
    /// The payload of a token issued for this user at `now`.
    pub fn to_token_data(&self, now: Timestamp) -> (data: TokenData)
        requires
            now.secs + TOKEN_LIFETIME_SECS <= u64::MAX,
        ensures
            data@ == token_data_at(self@, now),
    {
        TokenData { user: self.clone(), expired_at: now.plus_seconds(TOKEN_LIFETIME_SECS) }
    }

    /// Issues a token for this user at `now`.
    pub fn generate_token(&self, key: &SecretKey, now: Timestamp) -> (token: String)
        requires
            now.secs + TOKEN_LIFETIME_SECS <= u64::MAX,
        ensures
            issued(key@, self@, now, token@),
            url_safe_text(token@),
            self.wf() ==> self@.wf(),
    {
        let data = self.to_token_data(now);
        let bytes = encode_payload(&data);
        encrypt(key, bytes.as_slice(), now.secs)
    }

    /// Prepares the activation of this user's account: issues a token at
    /// `now` and writes the mail whose link carries it, percent-encoded, to
    /// the user's address.
    pub fn prepare_activate(&self, key: &SecretKey, now: Timestamp) -> (mail: ActivationMail)
        requires
            now.secs + TOKEN_LIFETIME_SECS <= u64::MAX,
        ensures
            mail.to_email@ == self@.email,
            mail.to_name@ == self@.nickname,
            mail.subject@ == mail_subject(),
            exists|token: Seq<char>|
                #[trigger] issued(key@, self@, now, token) && mail.text@ == link_prefix()
                    + percent_encoded(encode_utf8(token)),
            self.wf() ==> self@.wf(),
    {
        let token = self.generate_token(key, now);
        let encoded_token = url_encode(token.as_str());
        activation_mail(&self.email, &self.nickname, &encoded_token)
    }
}

impl TokenData {
    /// Reads the payload out of `token`, whether or not it has expired.
    pub fn decode(key: &SecretKey, token: String, now: Timestamp) -> (r: Result<
        TokenData,
        DecryptError,
    >)
        ensures
            match decoded(key@, token@, now.secs) {
                Some(v) => r matches Ok(data) && data@ == v && v.wf(),
                None => r is Err,
            },
    {
        match decrypt(key, token.as_str(), now.secs) {
            Ok(bytes) => match decode_payload(bytes.as_slice()) {
                Some(data) => Ok(data),
                None => Err(DecryptError),
            },
            Err(e) => Err(e),
        }
    }

    /// Whether this payload has expired at `now`.
    pub fn check_expired(&self, now: Timestamp) -> (b: bool)
        ensures
            b == expired(self@, now),
    {
        !now.is_before(&self.expired_at)
    }

    /// The guard of a request: turns the values of its `API_KEY_HEADER`
    /// headers into the identity that the request acts for, or the reason to
    /// refuse it.
    pub fn from_request(key: &SecretKey, keys: &Vec<String>, now: Timestamp) -> (r: Result<
        TokenData,
        TokenError,
    >)
        ensures
            match guarded(key@, keys.deep_view(), now) {
                Ok(v) => r matches Ok(data) && data@ == v && v.wf(),
                Err(e) => r == Err::<TokenData, TokenError>(e),
            },
    {
        if keys.len() == 0 {
            Err(TokenError::Missing)
        } else if keys.len() == 1 {
            match check_valid(key, keys[0].as_str(), now) {
                Ok(data) => Ok(data),
                Err(_) => Err(TokenError::Invalid),
            }
        } else {
            Err(TokenError::BadCount)
        }
    }
}

/// Reads the payload out of `token` and accepts it while it has not expired.
pub fn check_valid(key: &SecretKey, token: &str, now: Timestamp) -> (r: Result<TokenData, ()>)
    ensures
        match checked(key@, token@, now) {
            Some(v) => r matches Ok(data) && data@ == v && v.wf(),
            None => r is Err,
        },
{
    match TokenData::decode(key, token.to_owned(), now) {
        Ok(data) => if data.check_expired(now) {
            Err(())
        } else {
            Ok(data)
        },
        Err(_) => Err(()),
    }
}

/// Round trip. A token issued for a user opens, at every clock reading that
/// is not more than the cipher's skew allowance behind its issue, to the
/// payload it was issued with: the user comes back as it went in.
pub proof fn lemma_issue_then_decode(
    key: Seq<char>,
    user: UserView,
    issued_at: Timestamp,
    token: Seq<char>,
    now_secs: u64,
)
    requires
        user.wf(),
        issued_at.wf(),
        issued_at.secs + TOKEN_LIFETIME_SECS <= u64::MAX,
        issued(key, user, issued_at, token),
        issued_at.secs <= now_secs + MAX_CLOCK_SKEW <= u64::MAX,
    ensures
        decoded(key, token, now_secs) == Some(token_data_at(user, issued_at)),
        decoded(key, token, now_secs)->0.user == user,
{
    lemma_parse_encoded(token_data_at(user, issued_at));
}

/// Expiry, at any instant. A token issued at `issued_at` and checked at
/// `now` is accepted, with the payload it was issued with, while `now` comes
/// before `issued_at` plus one token lifetime, and refused from then on.
pub proof fn lemma_issue_then_check(
    key: Seq<char>,
    user: UserView,
    issued_at: Timestamp,
    token: Seq<char>,
    now: Timestamp,
)
    requires
        user.wf(),
        issued_at.wf(),
        issued_at.secs + TOKEN_LIFETIME_SECS <= u64::MAX,
        issued(key, user, issued_at, token),
        issued_at.secs <= now.secs + MAX_CLOCK_SKEW <= u64::MAX,
    ensures
        checked(key, token, now) == if now.precedes(
            issued_at.later_by(TOKEN_LIFETIME_SECS as int),
        ) {
            Some(token_data_at(user, issued_at))
        } else {
            None
        },
{
    lemma_issue_then_decode(key, user, issued_at, token, now.secs);
}

/// Expiry, at the two instants either side of the lifetime's end. A token
/// issued at `issued_at` is accepted 23 hours and 59 minutes later, and
/// refused 24 hours and one second later.
pub proof fn lemma_expiry_window(
    key: Seq<char>,
    user: UserView,
    issued_at: Timestamp,
    token: Seq<char>,
)
    requires
        user.wf(),
        issued_at.wf(),
        issued_at.secs + 86_401 + MAX_CLOCK_SKEW <= u64::MAX,
        issued(key, user, issued_at, token),
    ensures
        checked(key, token, issued_at.later_by(86_340)) == Some(token_data_at(user, issued_at)),
        checked(key, token, issued_at.later_by(86_401)) is None,
        guarded(key, seq![token], issued_at.later_by(86_340)) == Ok::<TokenDataView, TokenError>(
            token_data_at(user, issued_at),
        ),
        guarded(key, seq![token], issued_at.later_by(86_401)) == Err::<TokenDataView, TokenError>(
            TokenError::Invalid,
        ),
{
    lemma_issue_then_check(key, user, issued_at, token, issued_at.later_by(86_340));
    lemma_issue_then_check(key, user, issued_at, token, issued_at.later_by(86_401));
}

/// The guard, case by case: no credential is `Missing`; two or more are
/// `BadCount`, whatever they hold; one that carries no payload, or an
/// expired one, is `Invalid`; and one issued for a user and still within its
/// lifetime gives back that user.
pub proof fn lemma_guard_cases(
    key: Seq<char>,
    keys: Seq<Seq<char>>,
    now: Timestamp,
    user: UserView,
    issued_at: Timestamp,
)
    ensures
        keys.len() == 0 ==> guarded(key, keys, now) == Err::<TokenDataView, TokenError>(
            TokenError::Missing,
        ),
        keys.len() >= 2 ==> guarded(key, keys, now) == Err::<TokenDataView, TokenError>(
            TokenError::BadCount,
        ),
        keys.len() == 1 && decoded(key, keys[0], now.secs) is None ==> guarded(key, keys, now)
            == Err::<TokenDataView, TokenError>(TokenError::Invalid),
        keys.len() == 1 && decoded(key, keys[0], now.secs) is Some && expired(
            decoded(key, keys[0], now.secs)->0,
            now,
        ) ==> guarded(key, keys, now) == Err::<TokenDataView, TokenError>(TokenError::Invalid),
        ({
            &&& keys.len() == 1
            &&& user.wf()
            &&& issued_at.wf()
            &&& issued_at.secs + TOKEN_LIFETIME_SECS <= u64::MAX
            &&& issued(key, user, issued_at, keys[0])
            &&& issued_at.secs <= now.secs + MAX_CLOCK_SKEW <= u64::MAX
            &&& now.precedes(issued_at.later_by(TOKEN_LIFETIME_SECS as int))
        }) ==> guarded(key, keys, now) == Ok::<TokenDataView, TokenError>(
            token_data_at(user, issued_at),
        ),
{
    if keys.len() == 1 && user.wf() && issued_at.wf() && issued_at.secs + TOKEN_LIFETIME_SECS
        <= u64::MAX && issued(key, user, issued_at, keys[0]) && issued_at.secs <= now.secs
        + MAX_CLOCK_SKEW <= u64::MAX {
        lemma_issue_then_check(key, user, issued_at, keys[0], now);
    }
}

} // verus!
