//! Registering, updating, activating and logging in: what each request must
//! hold, and what is decided from it.

use crate::error::TentechError;
use crate::models::user::{
    decoded, expired, issued, lemma_issue_then_decode, token_data_at, TokenData, TokenDataView, User,
    UserView, TOKEN_LIFETIME_SECS,
};
use crate::time::Timestamp;
use crate::token::{SecretKey, MAX_CLOCK_SKEW};
use crate::urlcode::{lemma_url_round_trip, percent_encoded, url_decode, url_decoded};
use crate::validation::{
    about, blank, email_shaped, has_length, is_email, is_url, is_username, length_within,
    none_found, noted_unless, recorded, url_shaped, username_shaped, FieldValidator, Finding,
    Validate,
};
use vstd::prelude::*;
use vstd::utf8::encode_utf8;

verus! {

/// The body of a request to register.
#[derive(Debug)]
pub struct NewUser {
    pub user: NewUserData,
}

/// What a new user gives of itself. A field that is left out is noted as
/// blank when it is asked for, not here.
#[derive(Debug)]
pub struct NewUserData {
    pub username: Option<String>,
    pub nickname: Option<String>,
    pub email: Option<String>,
    pub password: Option<String>,
}

/// The body of a request to update a user.
#[derive(Debug)]
pub struct UpdateUser {
    pub user: UpdateUserData,
}

/// The new values of a user's record.
#[derive(Debug)]
pub struct UpdateUserData {
    pub username: String,
    pub nickname: String,
    pub email: String,
    pub password: String,
    pub avatar: Option<String>,
    pub bio: String,
}

/// The body of a request to log in: the address that names the account, and
/// the password to check against the stored one.
#[derive(Debug)]
pub struct LoginUser {
    pub email: String,
    pub password: String,
}

/// A username is of the username's shape and of 1 to 15 characters.
pub open spec fn username_rules(
    found: Map<Seq<char>, Seq<Finding>>,
    username: Seq<char>,
) -> Map<Seq<char>, Seq<Finding>> {
    noted_unless(
        length_within(username, Some(1u64), Some(15u64)),
        noted_unless(username_shaped(username), found, "username"@, about("regex"@, username)),
        "username"@,
        about("length"@, username),
    )
}

/// A nickname is of 1 to 50 characters.
pub open spec fn nickname_rules(
    found: Map<Seq<char>, Seq<Finding>>,
    nickname: Seq<char>,
) -> Map<Seq<char>, Seq<Finding>> {
    noted_unless(
        length_within(nickname, Some(1u64), Some(50u64)),
        found,
        "nickname"@,
        about("length"@, nickname),
    )
}

/// An e-mail address is of an address's shape.
pub open spec fn email_rules(found: Map<Seq<char>, Seq<Finding>>, email: Seq<char>) -> Map<
    Seq<char>,
    Seq<Finding>,
> {
    noted_unless(email_shaped(email), found, "email"@, about("email"@, email))
}

/// A password is of 8 characters or more.
pub open spec fn password_rules(
    found: Map<Seq<char>, Seq<Finding>>,
    password: Seq<char>,
) -> Map<Seq<char>, Seq<Finding>> {
    noted_unless(
        length_within(password, Some(8u64), None),
        found,
        "password"@,
        about("length"@, password),
    )
}

/// An avatar is a URL.
pub open spec fn avatar_rules(found: Map<Seq<char>, Seq<Finding>>, avatar: Seq<char>) -> Map<
    Seq<char>,
    Seq<Finding>,
> {
    noted_unless(url_shaped(avatar), found, "avatar"@, about("url"@, avatar))
}

fn check_username(found: &mut FieldValidator, username: &String)
    ensures
        final(found)@ == username_rules(old(found)@, username@),
{
    found.require(is_username(username), "username", "regex", username);
    found.require(has_length(username, Some(1), Some(15)), "username", "length", username);
}

fn check_nickname(found: &mut FieldValidator, nickname: &String)
    ensures
        final(found)@ == nickname_rules(old(found)@, nickname@),
{
    found.require(has_length(nickname, Some(1), Some(50)), "nickname", "length", nickname);
}

fn check_email(found: &mut FieldValidator, email: &String)
    ensures
        final(found)@ == email_rules(old(found)@, email@),
{
    found.require(is_email(email), "email", "email", email);
}

fn check_password(found: &mut FieldValidator, password: &String)
    ensures
        final(found)@ == password_rules(old(found)@, password@),
{
    found.require(has_length(password, Some(8), None), "password", "length", password);
}

impl Validate for NewUserData {
    /// Each field that is given is held to its rule; one that is left out
    /// breaks none.
    open spec fn broken_rules(&self) -> Map<Seq<char>, Seq<Finding>> {
        let a = match self.username {
            Some(username) => username_rules(none_found(), username@),
            None => none_found(),
        };
        let b = match self.nickname {
            Some(nickname) => nickname_rules(a, nickname@),
            None => a,
        };
        let c = match self.email {
            Some(email) => email_rules(b, email@),
            None => b,
        };
        match self.password {
            Some(password) => password_rules(c, password@),
            None => c,
        }
    }

    fn validate(&self) -> (found: FieldValidator) {
        let mut found = FieldValidator::default();
        match &self.username {
            Some(username) => check_username(&mut found, username),
            None => {},
        }
        match &self.nickname {
            Some(nickname) => check_nickname(&mut found, nickname),
            None => {},
        }
        match &self.email {
            Some(email) => check_email(&mut found, email),
            None => {},
        }
        match &self.password {
            Some(password) => check_password(&mut found, password),
            None => {},
        }
        found
    }
}

impl Validate for UpdateUserData {
    /// Every field but the biography is held to its rule, the avatar where
    /// one is given.
    open spec fn broken_rules(&self) -> Map<Seq<char>, Seq<Finding>> {
        let d = password_rules(
            email_rules(
                nickname_rules(username_rules(none_found(), self.username@), self.nickname@),
                self.email@,
            ),
            self.password@,
        );
        match self.avatar {
            Some(avatar) => avatar_rules(d, avatar@),
            None => d,
        }
    }

    fn validate(&self) -> (found: FieldValidator) {
        let mut found = FieldValidator::default();
        check_username(&mut found, &self.username);
        check_nickname(&mut found, &self.nickname);
        check_email(&mut found, &self.email);
        check_password(&mut found, &self.password);
        match &self.avatar {
            Some(avatar) => found.require(is_url(avatar), "avatar", "url", avatar),
            None => {},
        }
        found
    }
}

/// What a request to register comes to once it has been checked: the four
/// values to create the user from. The password is still the one given.
#[derive(Debug)]
pub struct Registration {
    pub username: String,
    pub nickname: String,
    pub email: String,
    pub password: String,
}

/// All that is wrong with a request to register: the rules that the given
/// fields break, and after them a blank for each field left out, in the
/// order username, nickname, email, password.
pub open spec fn registration_errors(data: NewUserData) -> Map<Seq<char>, Seq<Finding>> {
    noted_unless(
        data.password is Some,
        noted_unless(
            data.email is Some,
            noted_unless(
                data.nickname is Some,
                noted_unless(data.username is Some, data.broken_rules(), "username"@, blank()),
                "nickname"@,
                blank(),
            ),
            "email"@,
            blank(),
        ),
        "password"@,
        blank(),
    )
}

/// Checks a request to register: the values to create the user from where
/// nothing is wrong with it, and all that is wrong with it where not.
pub fn post_users(new_user: NewUser) -> (r: Result<Registration, TentechError>)
    ensures
        r is Ok <==> registration_errors(new_user.user) == none_found(),
        r matches Ok(values) ==> {
            &&& new_user.user.username == Some(values.username)
            &&& new_user.user.nickname == Some(values.nickname)
            &&& new_user.user.email == Some(values.email)
            &&& new_user.user.password == Some(values.password)
        },
        r matches Err(e) ==> e matches TentechError::ValidationFailed(errors) && recorded(errors)
            == registration_errors(new_user.user),
{
    let new_user = new_user.user;
    let mut extractor = FieldValidator::validate(&new_user);
    let username = extractor.extract("username", new_user.username);
    let nickname = extractor.extract("nickname", new_user.nickname);
    let email = extractor.extract("email", new_user.email);
    let password = extractor.extract("password", new_user.password);
    match extractor.check() {
        Ok(()) => Ok(Registration { username, nickname, email, password }),
        Err(e) => Err(TentechError::ValidationFailed(e.errors)),
    }
}

/// Checks a request to update a user: the new values where they break no
/// rule, and the rules they break where they do.
pub fn update_users(update_user: UpdateUser) -> (r: Result<UpdateUserData, TentechError>)
    ensures
        r is Ok <==> update_user.user.broken_rules() == none_found(),
        r matches Ok(values) ==> values == update_user.user,
        r matches Err(e) ==> e matches TentechError::ValidationFailed(errors) && recorded(errors)
            == update_user.user.broken_rules(),
{
    let update_user = update_user.user;
    match update_user.validate().check() {
        Ok(()) => Ok(update_user),
        Err(e) => Err(TentechError::ValidationFailed(e.errors)),
    }
}

/// The payload that the token of an activation link carries, read at the
/// clock reading `now_secs`: the link's text is percent-decoded, and what
/// it gives is opened as a token.
pub open spec fn activation_read(key: Seq<char>, raw_token: Seq<char>, now_secs: u64) -> Option<
    TokenDataView,
> {
    match url_decoded(raw_token) {
        Some(token) => decoded(key, token, now_secs),
        None => None,
    }
}

/// Reads the token of an activation link, as it comes out of the query.
pub fn read_activation_token(key: &SecretKey, raw_token: &String, now: Timestamp) -> (r: Result<
    TokenData,
    TentechError,
>)
    ensures
        match activation_read(key@, raw_token@, now.secs) {
            Some(v) => r matches Ok(data) && data@ == v && v.wf(),
            None => r matches Err(TentechError::CannotDecryptToken),
        },
{
    let token = match url_decode(raw_token.as_str()) {
        Some(token) => token,
        None => {
            return Err(TentechError::CannotDecryptToken);
        },
    };
    match TokenData::decode(key, token, now) {
        Ok(data) => Ok(data),
        Err(_) => Err(TentechError::CannotDecryptToken),
    }
}

/// Whether the account `target` may be activated at `now` on the strength of
/// `token_data`: not where it is activated already, and not where the token
/// has expired. The stored record is changed only after this says `Ok`.
pub fn activate(token_data: &TokenData, target: &User, now: Timestamp) -> (r: Result<
    (),
    TentechError,
>)
    ensures
        target.activated ==> r matches Err(TentechError::AlreadyActivated),
        !target.activated && expired(token_data@, now) ==> r matches Err(
            TentechError::TokenExpired,
        ),
        !target.activated && !expired(token_data@, now) ==> r is Ok,
{
    if target.activated {
        return Err(TentechError::AlreadyActivated);
    }
    if token_data.check_expired(now) {
        return Err(TentechError::TokenExpired);
    }
    Ok(())
}

/// The link carries the token intact. What is issued for a user and
/// percent-encoded into an activation link is read back, at every clock
/// reading within the cipher's skew allowance, as the payload it was issued
/// with.
pub proof fn lemma_activation_link_reads_back(
    key: Seq<char>,
    user: UserView,
    issued_at: Timestamp,
    token: Seq<char>,
    now_secs: u64,
)
    requires
        user.wf(),
        issued_at.wf(),
        issued_at.secs + TOKEN_LIFETIME_SECS <= u64::MAX,
        issued(key, user, issued_at, token),
        issued_at.secs <= now_secs + MAX_CLOCK_SKEW <= u64::MAX,
    ensures
        activation_read(key, percent_encoded(encode_utf8(token)), now_secs) == Some(
            token_data_at(user, issued_at),
        ),
{
    lemma_url_round_trip(token);
    lemma_issue_then_decode(key, user, issued_at, token, now_secs);
}

} // verus!
