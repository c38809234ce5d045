use tentech_api::error::{
    ErrorJson, TentechError, STATUS_BAD_REQUEST, STATUS_CONFLICT, STATUS_UNAUTHORIZED,
    STATUS_UNPROCESSABLE_ENTITY,
};
use tentech_api::db::users::UserCreationError;
use tentech_api::validation::FieldValidator;

fn failed_validation() -> TentechError {
    let mut found = FieldValidator::default();
    found.note("title", "length");
    match found.check() {
        Err(e) => TentechError::ValidationFailed(e.errors),
        Ok(()) => unreachable!("an error was noted"),
    }
}

fn json(error: TentechError) -> (String, String) {
    let ErrorJson { error_type, message } = error.into();
    (error_type, message)
}

fn pair(a: &str, b: &str) -> (String, String) {
    (a.to_string(), b.to_string())
}

#[test]
fn status_codes() {
    assert_eq!(STATUS_BAD_REQUEST, 400);
    assert_eq!(STATUS_UNAUTHORIZED, 401);
    assert_eq!(STATUS_CONFLICT, 409);
    assert_eq!(STATUS_UNPROCESSABLE_ENTITY, 422);
}

#[test]
fn every_token_failure_is_unauthorized() {
    assert_eq!(TentechError::CannotDecryptToken.status(), STATUS_UNAUTHORIZED);
    assert_eq!(TentechError::TokenExpired.status(), STATUS_UNAUTHORIZED);
}

#[test]
fn each_failure_has_its_status() {
    assert_eq!(TentechError::CannotDecryptToken.status(), 401);
    assert_eq!(TentechError::CannotVerifyPassword.status(), 401);
    assert_eq!(failed_validation().status(), 400);
    assert_eq!(TentechError::TokenExpired.status(), 401);
    assert_eq!(TentechError::DatabaseFailed("x".to_string()).status(), 409);
    assert_eq!(TentechError::AlreadyActivated.status(), 409);
    assert_eq!(TentechError::CannotSendEmail.status(), 422);
    assert_eq!(TentechError::Unauthorized("x".to_string()).status(), 401);
    assert_eq!(TentechError::CannotDecodeBase64.status(), 400);
    assert_eq!(TentechError::CannotPutS3Object.status(), 422);
    assert_eq!(TentechError::CannotReactTooMany.status(), 409);
    assert_eq!(TentechError::CannotReactTooFew.status(), 409);
}

#[test]
fn each_failure_has_its_name_and_message() {
    assert_eq!(
        json(TentechError::CannotDecryptToken),
        pair("CannotDecryptToken", "Cannot decrypt token")
    );
    assert_eq!(
        json(TentechError::CannotVerifyPassword),
        pair("CannotVerifyPassword", "Cannot verify password")
    );
    assert_eq!(json(TentechError::TokenExpired), pair("TokenExpired", "Token expired"));
    assert_eq!(
        json(TentechError::DatabaseFailed("no such row".to_string())),
        pair("DatabaseFailed", "no such row")
    );
    assert_eq!(json(TentechError::AlreadyActivated), pair("AlreadyActivated", "Already activated"));
    assert_eq!(json(TentechError::CannotSendEmail), pair("CannotSendEmail", "Cannot send email"));
    assert_eq!(
        json(TentechError::Unauthorized("Cannot delete other's product".to_string())),
        pair("Unauthorized", "Cannot delete other's product")
    );
    assert_eq!(
        json(TentechError::CannotDecodeBase64),
        pair("CannotDecodeBase64", "Cannot decode base64")
    );
    assert_eq!(
        json(TentechError::CannotPutS3Object),
        pair("CannotPutS3Object", "Cannot put object to s3")
    );
    assert_eq!(
        json(TentechError::CannotReactTooMany),
        pair("CannotReactTooMany", "Cannot react more than 5 times")
    );
    assert_eq!(
        json(TentechError::CannotReactTooFew),
        pair("CannotReactTooFew", "No reaction to take back")
    );
}

#[test]
fn a_failed_validation_is_worded_by_what_it_found() {
    let error = failed_validation();
    assert_eq!(error.kind_name(), "ValidationFailed");
    let message = error.message();
    assert!(message.contains("title"), "{}", message);
    assert!(message.contains("length"), "{}", message);
}

#[test]
fn only_a_failed_validation_has_a_source() {
    let error = failed_validation();
    let source = error.source().expect("a failed validation");
    assert!(source.field_errors().contains_key("title"));
    assert!(TentechError::TokenExpired.source().is_none());
    assert!(TentechError::DatabaseFailed("x".to_string()).source().is_none());
}

#[test]
fn post_same_username() {
    let message = "duplicate key value violates unique constraint \"users_username_key\"";
    assert_eq!(
        UserCreationError::from_constraint("users_username_key"),
        Some(UserCreationError::DuplicatedUsername)
    );
    let error = TentechError::DatabaseFailed(message.to_string());
    assert_eq!(error.status(), 409);
    assert_eq!(json(error), pair("DatabaseFailed", message));
}

#[test]
fn post_same_email() {
    let message = "duplicate key value violates unique constraint \"users_email_key\"";
    assert_eq!(
        UserCreationError::from_constraint("users_email_key"),
        Some(UserCreationError::DuplicatedEmail)
    );
    let error = TentechError::DatabaseFailed(message.to_string());
    assert_eq!(error.status(), 409);
    assert_eq!(json(error), pair("DatabaseFailed", message));
}
