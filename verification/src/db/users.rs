//! Creating users and logging them in: how a password is hashed for the
//! store, and how one is checked against what the store holds.

use crate::error::TentechError;
use crate::models::user::User;
use crate::routes::users::Registration;
use vstd::prelude::*;
use vstd::string::StrSliceExecFns;

verus! {

/// A user to be stored: what was given at registration, with the password
/// hashed, and not yet activated.
#[derive(Debug)]
pub struct NewUser {
    pub username: String,
    pub nickname: String,
    pub email: String,
    pub password: String,
    pub activated: bool,
}

/// The cost of hashing a password, as the binary logarithm of the number of
/// rounds.
pub const SCRYPT_LOG_N: u8 = 14;

/// The size of the blocks that hashing a password works on.
pub const SCRYPT_R: u32 = 8;

/// How many times over a password is hashed in parallel.
pub const SCRYPT_P: u32 = 1;

/// The character that stands for the six bits `digit` in the standard
/// alphabet of base64.
pub open spec fn base64_digit(digit: int) -> char {
    if digit < 26 {
        (0x41 + digit) as char
    } else if digit < 52 {
        (0x61 + digit - 26) as char
    } else if digit < 62 {
        (0x30 + digit - 52) as char
    } else if digit == 62 {
        '+'
    } else {
        '/'
    }
}

/// Three bytes in base64: four characters, and no padding.
pub open spec fn base64_of_three(a: u8, b: u8, c: u8) -> Seq<char> {
    seq![
        base64_digit(a as int / 4),
        base64_digit((a as int % 4) * 16 + b as int / 16),
        base64_digit((b as int % 16) * 4 + c as int / 64),
        base64_digit(c as int % 64),
    ]
}

/// What a stored hash starts with when it was made at the cost `log_n`,
/// `r` and `p`, each of the latter two below 256: the name of the format,
/// the mark of its compact form, and the three parameters in base64. The
/// salt and the hash itself follow.
pub open spec fn cost_header(log_n: u8, r: u32, p: u32) -> Seq<char> {
    "$rscrypt$0$"@ + base64_of_three(log_n, r as u8, p as u8) + seq!['$']
}

/// Characters in a stored hash: the header, the salt, the hash proper, and
/// the `$` that ends each of the latter two.
pub const HASH_TEXT_LEN: usize = 86;

/// A character that stands for six bits in the standard alphabet of base64.
pub open spec fn is_base64_data(c: char) -> bool {
    ('A' <= c <= 'Z') || ('a' <= c <= 'z') || ('0' <= c <= '9') || c == '+' || c == '/'
}

/// Whether `text` holds, from `from` on, `data` characters of base64 and
/// then `pad` signs of padding.
pub open spec fn base64_field(text: Seq<char>, from: int, data: int, pad: int) -> bool {
    &&& forall|i: int| from <= i < from + data ==> is_base64_data(#[trigger] text[i])
    &&& forall|i: int| from + data <= i < from + data + pad ==> #[trigger] text[i] == '='
}

/// The shape of a hash made at the cost `log_n`, `r` and `p`: the header of
/// that cost, a salt of 16 bytes in base64, `$`, a hash of 32 bytes in
/// base64, `$`.
pub open spec fn hash_shaped(hashed: Seq<char>, log_n: u8, r: u32, p: u32) -> bool {
    &&& hashed.len() == HASH_TEXT_LEN
    &&& cost_header(log_n, r, p).is_prefix_of(hashed)
    &&& base64_field(hashed, 16, 22, 2)
    &&& hashed[40] == '$'
    &&& base64_field(hashed, 41, 43, 1)
    &&& hashed[85] == '$'
}

/// A stored value that a password can be checked against: one of the shape
/// that `create` stores, at the cost that `create` hashes at.
pub open spec fn checkable(hashed: Seq<char>) -> bool {
    hash_shaped(hashed, SCRYPT_LOG_N, SCRYPT_R, SCRYPT_P)
}

/// What `crypto::scrypt::scrypt_check` reports of `password` against the
/// stored value `hashed`: `Some` of whether the password hashes to that
/// value, or `None` where the stored value is not in the crate's format.
pub uninterp spec fn scrypt_checked(password: Seq<char>, hashed: Seq<char>) -> Option<bool>;

/// Whether `password` is the one that the stored value `stored` was made of,
/// as far as a check can tell: the stored value can be checked against, and
/// the check finds the two to match.
pub open spec fn password_accepted(password: Seq<char>, stored: Seq<char>) -> bool {
    checkable(stored) && scrypt_checked(password, stored) == Some(true)
}

/// `crypto::scrypt::scrypt_simple` with the parameters that
/// `crypto::scrypt::ScryptParams::new` makes of `log_n`, `r` and `p`; the
/// latter panics on a parameter that is zero, on more rounds than the block
/// size allows, and where the memory that the three ask for together cannot
/// be counted. The crate draws a fresh random salt, so two hashes of one
/// password differ; each is one that `crypto::scrypt::scrypt_check` finds
/// the password to match, as the crate documents of the pair, and each is
/// of the shape that the crate documents and writes where `r` and `p` are
/// below 256: the parameters in their compact form, then the salt of 16
/// bytes and the hash of 32, each in base64 with padding and ended by `$`.
/// `None` where the system has no randomness to give.
#[verifier::external_body]
fn scrypt_hash(password: &str, log_n: u8, r: u32, p: u32) -> (hash: Option<String>)
    requires
        0 < log_n < 32,
        0 < r,
        0 < p,
        log_n < r * 16,
        r * p < 0x4000_0000,
        r * 128 * vstd::arithmetic::power2::pow2(log_n as nat) <= u32::MAX,
        r * 128 * p <= u32::MAX,
    ensures
        hash matches Some(h) ==> scrypt_checked(password@, h@) == Some(true),
        hash matches Some(h) ==> (r < 256 && p < 256 ==> hash_shaped(h@, log_n, r, p)),
{
    crypto::scrypt::scrypt_simple(password, &crypto::scrypt::ScryptParams::new(log_n, r, p)).ok()
}

impl NewUser {
    /// The user to store for a checked registration, given what hashing its
    /// password came to: as registered, with `hash` for its password, and
    /// not activated; `None` where there is no hash.
    pub fn with_hash(values: Registration, hash: Option<String>) -> (r: Option<NewUser>)
        ensures
            r is Some <==> hash is Some,
            r matches Some(user) ==> {
                &&& user.username == values.username
                &&& user.nickname == values.nickname
                &&& user.email == values.email
                &&& Some(user.password) == hash
                &&& !user.activated
            },
    {
        match hash {
            Some(password) => Some(
                NewUser {
                    username: values.username,
                    nickname: values.nickname,
                    email: values.email,
                    password,
                    activated: false,
                },
            ),
            None => None,
        }
    }
}

/// The user to store for a checked registration: as registered, with the
/// password replaced by a hash of it, made at the cost `SCRYPT_LOG_N`,
/// `SCRYPT_R` and `SCRYPT_P`, and not activated. The hash is one that
/// `login` accepts the password against. `None` where the password could
/// not be hashed, which the system's source of randomness decides.
pub fn create(values: Registration) -> (r: Option<NewUser>)
    ensures
        r matches Some(user) ==> {
            &&& user.username == values.username
            &&& user.nickname == values.nickname
            &&& user.email == values.email
            &&& password_accepted(values.password@, user.password@)
            &&& !user.activated
        },
{
    proof {
        vstd::arithmetic::power2::lemma2_to64();
    }
    let hash = scrypt_hash(values.password.as_str(), SCRYPT_LOG_N, SCRYPT_R, SCRYPT_P);
    NewUser::with_hash(values, hash)
}

/// The header of every hash that `create` stores, written out.
pub proof fn lemma_cost_header()
    ensures
        cost_header(SCRYPT_LOG_N, SCRYPT_R, SCRYPT_P) == "$rscrypt$0$DggB$"@,
{
    reveal_strlit("$rscrypt$0$");
    reveal_strlit("$rscrypt$0$DggB$");
    assert(cost_header(SCRYPT_LOG_N, SCRYPT_R, SCRYPT_P) =~= "$rscrypt$0$DggB$"@);
}

/// Why a user could not be created.
#[derive(Clone, Copy, Debug, PartialEq, Eq, Structural)]
pub enum UserCreationError {
    DuplicatedEmail,
    DuplicatedUsername,
}

/// The constraint that keeps usernames unique.
pub open spec fn username_constraint() -> Seq<char> {
    "users_username_key"@
}

/// The constraint that keeps e-mail addresses unique.
pub open spec fn email_constraint() -> Seq<char> {
    "users_email_key"@
}

/// Whether two texts are the same.
fn same_text(a: &str, b: &str) -> (same: bool)
    ensures
        same == (a@ == b@),
{
    a.to_owned() == b.to_owned()
}

impl UserCreationError {
    /// Reads the failure off the name of the unique constraint that the
    /// store reports as violated; `None` for any other constraint.
    pub fn from_constraint(constraint_name: &str) -> (r: Option<UserCreationError>)
        ensures
            constraint_name@ == username_constraint() ==> r == Some(
                UserCreationError::DuplicatedUsername,
            ),
            constraint_name@ != username_constraint() && constraint_name@ == email_constraint()
                ==> r == Some(UserCreationError::DuplicatedEmail),
            constraint_name@ != username_constraint() && constraint_name@ != email_constraint()
                ==> r is None,
    {
        if same_text(constraint_name, "users_username_key") {
            Some(UserCreationError::DuplicatedUsername)
        } else if same_text(constraint_name, "users_email_key") {
            Some(UserCreationError::DuplicatedEmail)
        } else {
            None
        }
    }
}

/// Whether `text` holds, from `from` on, `data` characters of base64 and
/// then `pad` signs of padding.
fn field_is_base64(text: &str, from: usize, data: usize, pad: usize) -> (b: bool)
    requires
        from + data + pad <= text@.len() <= usize::MAX,
    ensures
        b == base64_field(text@, from as int, data as int, pad as int),
{
    let mut i: usize = from;
    while i < from + data
        invariant
            from <= i <= from + data,
            from + data + pad <= text@.len() <= usize::MAX,
            forall|j: int| from <= j < i ==> is_base64_data(#[trigger] text@[j]),
        decreases from + data - i,
    {
        let c = text.get_char(i);
        if !(('A' <= c && c <= 'Z') || ('a' <= c && c <= 'z') || ('0' <= c && c <= '9') || c == '+'
            || c == '/') {
            return false;
        }
        i += 1;
    }
    while i < from + data + pad
        invariant
            from + data <= i <= from + data + pad,
            from + data + pad <= text@.len() <= usize::MAX,
            forall|j: int| from <= j < from + data ==> is_base64_data(#[trigger] text@[j]),
            forall|j: int| from + data <= j < i ==> #[trigger] text@[j] == '=',
        decreases from + data + pad - i,
    {
        if text.get_char(i) != '=' {
            return false;
        }
        i += 1;
    }
    true
}

/// Whether `text` starts with the header of the cost that `create` hashes
/// at.
fn starts_with_cost_header(text: &str) -> (b: bool)
    requires
        16 <= text@.len() <= usize::MAX,
    ensures
        b == cost_header(SCRYPT_LOG_N, SCRYPT_R, SCRYPT_P).is_prefix_of(text@),
{
    let header = "$rscrypt$0$DggB$";
    proof {
        lemma_cost_header();
        reveal_strlit("$rscrypt$0$DggB$");
    }
    let mut i: usize = 0;
    while i < 16
        invariant
            i <= 16,
            16 <= text@.len() <= usize::MAX,
            header@.len() == 16,
            header@ == cost_header(SCRYPT_LOG_N, SCRYPT_R, SCRYPT_P),
            forall|j: int| 0 <= j < i ==> text@[j] == header@[j],
        decreases 16 - i,
    {
        if text.get_char(i) != header.get_char(i) {
            assert(text@.subrange(0, 16)[i as int] != header@[i as int]);
            return false;
        }
        i += 1;
    }
    assert(header@ =~= text@.subrange(0, 16));
    true
}

/// Whether the stored value `hashed` is one that a password can be checked
/// against.
pub fn is_checkable(hashed: &str) -> (b: bool)
    ensures
        b == checkable(hashed@),
{
    if hashed.unicode_len() != HASH_TEXT_LEN {
        return false;
    }
    starts_with_cost_header(hashed) && field_is_base64(hashed, 16, 22, 2) && hashed.get_char(40)
        == '$' && field_is_base64(hashed, 41, 43, 1) && hashed.get_char(85) == '$'
}

/// `crypto::scrypt::scrypt_check`: whether `password` hashes to the stored
/// value, or `None` where the crate cannot read the stored value. The crate
/// panics on a stored value whose parameters
/// `crypto::scrypt::ScryptParams::new` refuses, and on one whose hash
/// decodes to no bytes; a value that is `checkable` is neither.
#[verifier::external_body]
fn check_password(password: &str, hashed: &str) -> (r: Option<bool>)
    requires
        checkable(hashed@),
    ensures
        r == scrypt_checked(password@, hashed@),
{
    crypto::scrypt::scrypt_check(password, hashed).ok()
}

/// Logs `target` in with `password`: the user where the stored password
/// can be checked against and the check finds `password` to match it, and
/// `CannotVerifyPassword` where not.
pub fn login(target: User, password: &str) -> (r: Result<User, TentechError>)
    ensures
        password_accepted(password@, target.password@) ==> r == Ok::<User, TentechError>(target),
        !password_accepted(password@, target.password@) ==> r matches Err(
            TentechError::CannotVerifyPassword,
        ),
{
    if !is_checkable(target.password.as_str()) {
        return Err(TentechError::CannotVerifyPassword);
    }
    match check_password(password, target.password.as_str()) {
        Some(is_same) => {
            if !is_same {
                Err(TentechError::CannotVerifyPassword)
            } else {
                Ok(target)
            }
        },
        None => Err(TentechError::CannotVerifyPassword),
    }
}

} // verus!
