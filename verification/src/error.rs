//! The failures that reach the HTTP boundary, each with the name, the
//! message and the status it is reported under.

use vstd::prelude::*;

verus! {

/// The collection of `validator` that holds what a failed validation found,
/// field by field.
#[verifier::external_type_specification]
#[verifier::external_body]
pub struct ExValidationErrors(validator::ValidationErrors);

/// Every failure that a request can end in. None of them is fatal to the
/// process, and none is retried.
#[derive(Debug)]
pub enum TentechError {
    /// The token did not open, or held no payload.
    CannotDecryptToken,
    CannotVerifyPassword,
    ValidationFailed(validator::ValidationErrors),
    /// The token opened, and its lifetime is over.
    TokenExpired,
    DatabaseFailed(String),
    AlreadyActivated,
    CannotSendEmail,
    Unauthorized(String),
    CannotDecodeBase64,
    CannotPutS3Object,
    /// One more reaction would pass the cap.
    CannotReactTooMany,
    /// There is no reaction to take back.
    CannotReactTooFew,
}

/// A failure as the client reads it.
#[derive(Debug)]
pub struct ErrorJson {
    pub error_type: String,
    pub message: String,
}

/// The name a failure is reported under: that of its kind.
pub open spec fn kind_name(error: TentechError) -> Seq<char> {
    match error {
        TentechError::CannotDecryptToken => "CannotDecryptToken"@,
        TentechError::CannotVerifyPassword => "CannotVerifyPassword"@,
        TentechError::ValidationFailed(_) => "ValidationFailed"@,
        TentechError::TokenExpired => "TokenExpired"@,
        TentechError::DatabaseFailed(_) => "DatabaseFailed"@,
        TentechError::AlreadyActivated => "AlreadyActivated"@,
        TentechError::CannotSendEmail => "CannotSendEmail"@,
        TentechError::Unauthorized(_) => "Unauthorized"@,
        TentechError::CannotDecodeBase64 => "CannotDecodeBase64"@,
        TentechError::CannotPutS3Object => "CannotPutS3Object"@,
        TentechError::CannotReactTooMany => "CannotReactTooMany"@,
        TentechError::CannotReactTooFew => "CannotReactTooFew"@,
    }
}

/// The message of a failure, for every kind whose message this library
/// words. A failed validation is worded by the collection it carries, and
/// has `None` here.
pub open spec fn fixed_message(error: TentechError) -> Option<Seq<char>> {
    match error {
        TentechError::CannotDecryptToken => Some("Cannot decrypt token"@),
        TentechError::CannotVerifyPassword => Some("Cannot verify password"@),
        TentechError::ValidationFailed(_) => None,
        TentechError::TokenExpired => Some("Token expired"@),
        TentechError::DatabaseFailed(text) => Some(text@),
        TentechError::AlreadyActivated => Some("Already activated"@),
        TentechError::CannotSendEmail => Some("Cannot send email"@),
        TentechError::Unauthorized(text) => Some(text@),
        TentechError::CannotDecodeBase64 => Some("Cannot decode base64"@),
        TentechError::CannotPutS3Object => Some("Cannot put object to s3"@),
        TentechError::CannotReactTooMany => Some("Cannot react more than 5 times"@),
        TentechError::CannotReactTooFew => Some("No reaction to take back"@),
    }
}

/// 400 Bad Request.
pub const STATUS_BAD_REQUEST: u16 = 400;

/// 401 Unauthorized.
pub const STATUS_UNAUTHORIZED: u16 = 401;

/// 409 Conflict.
pub const STATUS_CONFLICT: u16 = 409;

/// 422 Unprocessable Entity.
pub const STATUS_UNPROCESSABLE_ENTITY: u16 = 422;

/// The HTTP status of a failure: unauthorized for every failure of a token,
/// be it malformed or expired, and for a password that does not hold; bad
/// request for what the request itself gets wrong; conflict for what the
/// stored state forbids; unprocessable where a collaborator could not do its
/// part.
pub open spec fn status_of(error: TentechError) -> u16 {
    match error {
        TentechError::CannotDecryptToken => STATUS_UNAUTHORIZED,
        TentechError::CannotVerifyPassword => STATUS_UNAUTHORIZED,
        TentechError::ValidationFailed(_) => STATUS_BAD_REQUEST,
        TentechError::TokenExpired => STATUS_UNAUTHORIZED,
        TentechError::DatabaseFailed(_) => STATUS_CONFLICT,
        TentechError::AlreadyActivated => STATUS_CONFLICT,
        TentechError::CannotSendEmail => STATUS_UNPROCESSABLE_ENTITY,
        TentechError::Unauthorized(_) => STATUS_UNAUTHORIZED,
        TentechError::CannotDecodeBase64 => STATUS_BAD_REQUEST,
        TentechError::CannotPutS3Object => STATUS_UNPROCESSABLE_ENTITY,
        TentechError::CannotReactTooMany => STATUS_CONFLICT,
        TentechError::CannotReactTooFew => STATUS_CONFLICT,
    }
}

/// What `validator::ValidationErrors` prints of itself through `Display`.
/// The collection is a hash map, so the order of its fields in the text is
/// not fixed, and nothing is claimed of the text.
#[verifier::external_body]
fn validation_message(errors: &validator::ValidationErrors) -> String {
    format!("{}", errors)
}

impl TentechError {
    /// The name this failure is reported under.
    pub fn kind_name(&self) -> (name: String)
        ensures
            name@ == kind_name(*self),
    {
        match self {
            TentechError::CannotDecryptToken => "CannotDecryptToken".to_owned(),
            TentechError::CannotVerifyPassword => "CannotVerifyPassword".to_owned(),
            TentechError::ValidationFailed(_) => "ValidationFailed".to_owned(),
            TentechError::TokenExpired => "TokenExpired".to_owned(),
            TentechError::DatabaseFailed(_) => "DatabaseFailed".to_owned(),
            TentechError::AlreadyActivated => "AlreadyActivated".to_owned(),
            TentechError::CannotSendEmail => "CannotSendEmail".to_owned(),
            TentechError::Unauthorized(_) => "Unauthorized".to_owned(),
            TentechError::CannotDecodeBase64 => "CannotDecodeBase64".to_owned(),
            TentechError::CannotPutS3Object => "CannotPutS3Object".to_owned(),
            TentechError::CannotReactTooMany => "CannotReactTooMany".to_owned(),
            TentechError::CannotReactTooFew => "CannotReactTooFew".to_owned(),
        }
    }

    /// The message of this failure.
    pub fn message(&self) -> (text: String)
        ensures
            fixed_message(*self) matches Some(m) ==> text@ == m,
    {
        match self {
            TentechError::CannotDecryptToken => "Cannot decrypt token".to_owned(),
            TentechError::CannotVerifyPassword => "Cannot verify password".to_owned(),
            TentechError::ValidationFailed(errors) => validation_message(errors),
            TentechError::TokenExpired => "Token expired".to_owned(),
            TentechError::DatabaseFailed(text) => text.clone(),
            TentechError::AlreadyActivated => "Already activated".to_owned(),
            TentechError::CannotSendEmail => "Cannot send email".to_owned(),
            TentechError::Unauthorized(text) => text.clone(),
            TentechError::CannotDecodeBase64 => "Cannot decode base64".to_owned(),
            TentechError::CannotPutS3Object => "Cannot put object to s3".to_owned(),
            TentechError::CannotReactTooMany => "Cannot react more than 5 times".to_owned(),
            TentechError::CannotReactTooFew => "No reaction to take back".to_owned(),
        }
    }

    /// The collection behind this failure, where it is a failed validation.
    pub fn source(&self) -> (errors: Option<&validator::ValidationErrors>)
        ensures
            errors is Some <==> *self is ValidationFailed,
            errors matches Some(e) ==> *e == self->ValidationFailed_0,
    {
        match self {
            TentechError::ValidationFailed(errors) => Some(errors),
            _ => None,
        }
    }

    /// The HTTP status this failure is answered with.
    pub fn status(&self) -> (code: u16)
        ensures
            code == status_of(*self),
    {
        match self {
            TentechError::CannotDecryptToken => STATUS_UNAUTHORIZED,
            TentechError::CannotVerifyPassword => STATUS_UNAUTHORIZED,
            TentechError::ValidationFailed(_) => STATUS_BAD_REQUEST,
            TentechError::TokenExpired => STATUS_UNAUTHORIZED,
            TentechError::DatabaseFailed(_) => STATUS_CONFLICT,
            TentechError::AlreadyActivated => STATUS_CONFLICT,
            TentechError::CannotSendEmail => STATUS_UNPROCESSABLE_ENTITY,
            TentechError::Unauthorized(_) => STATUS_UNAUTHORIZED,
            TentechError::CannotDecodeBase64 => STATUS_BAD_REQUEST,
            TentechError::CannotPutS3Object => STATUS_UNPROCESSABLE_ENTITY,
            TentechError::CannotReactTooMany => STATUS_CONFLICT,
            TentechError::CannotReactTooFew => STATUS_CONFLICT,
        }
    }

    /// This failure as the client reads it: its name and its message.
    pub fn into(self) -> (json: ErrorJson)
        ensures
            json.error_type@ == kind_name(self),
            fixed_message(self) matches Some(m) ==> json.message@ == m,
    {
        ErrorJson { error_type: self.kind_name(), message: self.message() }
    }
}

} // verus!
