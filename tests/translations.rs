use api_errors::code::ErrorCode;
use api_errors::error::Error;
use api_errors::translate::{Base64CursorError, StoreFailure};
use diesel::result::{DatabaseErrorInformation, DatabaseErrorKind};

struct Info {
    message: String,
    details: Option<String>,
}

impl DatabaseErrorInformation for Info {
    fn message(&self) -> &str {
        &self.message
    }
    fn details(&self) -> Option<&str> {
        self.details.as_deref()
    }
    fn hint(&self) -> Option<&str> {
        None
    }
    fn table_name(&self) -> Option<&str> {
        None
    }
    fn column_name(&self) -> Option<&str> {
        None
    }
    fn constraint_name(&self) -> Option<&str> {
        None
    }
    fn statement_position(&self) -> Option<i32> {
        None
    }
}

fn db_error(kind: DatabaseErrorKind, details: Option<&str>) -> diesel::result::Error {
    diesel::result::Error::DatabaseError(
        kind,
        Box::new(Info {
            message: String::from("duplicate key value violates unique constraint"),
            details: details.map(String::from),
        }),
    )
}

#[test]
fn store_unique_violation_with_value() {
    let f = StoreFailure::UniqueViolation {
        details: Some(String::from("Key (username)=(esteban) already exists.")),
    };
    let e = Error::from_store_failure(&f, "cause");
    assert_eq!(e.code, ErrorCode::Unique);
    assert_eq!(e.field.as_deref(), Some("username"));
    assert_eq!(e.message.as_deref(), Some("A username with esteban already exists"));
}

#[test]
fn store_unique_violation_without_value() {
    let f = StoreFailure::UniqueViolation { details: Some(String::from("Key (email) taken")) };
    let e = Error::from_store_failure(&f, "cause");
    assert_eq!(e.code, ErrorCode::Unique);
    assert_eq!(e.field.as_deref(), Some("email"));
    assert_eq!(e.message.as_deref(), Some("The email already exists"));
}

#[test]
fn store_unique_violation_malformed_detail() {
    let f = StoreFailure::UniqueViolation { details: Some(String::from("no key here")) };
    let e = Error::from_store_failure(&f, "cause");
    assert_eq!(e.code, ErrorCode::Unhandled);
    assert_eq!(e.message.as_deref(), Some("cause"));
}

#[test]
fn store_unique_violation_missing_detail() {
    let f = StoreFailure::UniqueViolation { details: None };
    let e = Error::from_store_failure(&f, "cause");
    assert_eq!(e.code, ErrorCode::Unhandled);
    assert_eq!(e.message.as_deref(), Some("cause"));
}

#[test]
fn store_other_failure() {
    let e = Error::from_store_failure(&StoreFailure::Other, "cause");
    assert_eq!(e.code, ErrorCode::Unhandled);
    assert_eq!(e.message.as_deref(), Some("cause"));
}

#[test]
fn diesel_unique_violation() {
    let err = db_error(
        DatabaseErrorKind::UniqueViolation,
        Some("Key (username)=(esteban) already exists."),
    );
    let e = Error::from_diesel(err);
    assert_eq!(e.code, ErrorCode::Unique);
    assert_eq!(e.field.as_deref(), Some("username"));
    assert_eq!(e.message.as_deref(), Some("A username with esteban already exists"));
}

#[test]
fn diesel_unique_violation_without_detail() {
    let e = Error::from_diesel(db_error(DatabaseErrorKind::UniqueViolation, None));
    assert_eq!(e.code, ErrorCode::Unhandled);
    assert_eq!(e.message.as_deref(), Some("duplicate key value violates unique constraint"));
}

#[test]
fn diesel_other_kind() {
    let err = db_error(
        DatabaseErrorKind::ForeignKeyViolation,
        Some("Key (username)=(esteban) already exists."),
    );
    let e = Error::from_diesel(err);
    assert_eq!(e.code, ErrorCode::Unhandled);
}

#[test]
fn diesel_not_found() {
    let e = Error::from_diesel(diesel::result::Error::NotFound);
    assert_eq!(e.code, ErrorCode::Unhandled);
    assert_eq!(e.message.as_deref(), Some("Record not found"));
    assert_eq!(e.field.as_deref(), Some("An unhandled error occurred"));
}

#[test]
fn token_failure_decision() {
    let e = Error::from_token_failure(true, "x");
    assert_eq!((e.code, e.field, e.message), (ErrorCode::InvalidJsonWebToken, None, None));
    let e = Error::from_token_failure(false, "x");
    assert_eq!(e.code, ErrorCode::Unhandled);
    assert_eq!(e.message.as_deref(), Some("x"));
}

#[test]
fn jwt_invalid_token() {
    let err = jsonwebtoken::errors::Error::from(jsonwebtoken::errors::ErrorKind::InvalidToken);
    let e = Error::from_jwt(err);
    assert_eq!(e.code, ErrorCode::InvalidJsonWebToken);
    assert_eq!(e.field, None);
    assert_eq!(e.message, None);
    let w = e.to_wire();
    assert_eq!(w.extensions.code, "INVALID_JWT");
    assert_eq!(w.extensions.field, None);
    assert_eq!(w.extensions.message, None);
}

#[test]
fn jwt_other_kind() {
    let err = jsonwebtoken::errors::Error::from(jsonwebtoken::errors::ErrorKind::InvalidSignature);
    let shown = err.to_string();
    let e = Error::from_jwt(err);
    assert_eq!(e.code, ErrorCode::Unhandled);
    assert_eq!(e.message, Some(shown));
}

#[test]
fn argon2_failure() {
    let e = Error::from_argon2(argon2::Error::SaltTooShort);
    assert_eq!(e.code, ErrorCode::Unhandled);
    assert_eq!(e.message.as_deref(), Some("salt is too short"));
}

#[test]
fn cursor_failure() {
    let e = Error::from_cursor(Base64CursorError);
    assert_eq!(e.code, ErrorCode::Base64CursorError);
    assert_eq!(e.field, None);
    assert_eq!(e.message, None);
    let w = e.to_wire();
    assert_eq!(w.extensions.code, "BASE64_CURSOR_ERROR");
    assert_eq!(w.extensions.field, None);
    assert_eq!(w.extensions.message, None);
}

#[test]
fn upstream_failure() {
    let e = Error::from_graphql(async_graphql::Error::new("resolver exploded"));
    assert_eq!(e.code, ErrorCode::ServerError);
    let w = e.to_wire();
    assert_eq!(w.message, "An error occurred");
    assert_eq!(w.extensions.code, "SERVER_ERROR");
    assert_eq!(w.extensions.field, None);
    assert_eq!(w.extensions.message, None);
}

#[test]
fn store_unique_violation_empty_value() {
    let f = StoreFailure::UniqueViolation {
        details: Some(String::from("Key (email)=() already exists.")),
    };
    let e = Error::from_store_failure(&f, "cause");
    assert_eq!(e.code, ErrorCode::Unique);
    assert_eq!(e.field.as_deref(), Some("email"));
    assert_eq!(e.message.as_deref(), Some("A email with  already exists"));
}
