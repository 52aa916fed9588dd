//! One translation per outside source of failure, each into the canonical
//! [`Error`].

use vstd::prelude::*;
use vstd::string::to_string_from_display_ensures;

use crate::code::ErrorCode;
use crate::detail::{constraint_hint, has_column, hint_of};
use crate::error::{opt_view, Error};

verus! {

/// What a data store failure tells this layer: whether it was a uniqueness
/// violation, with the driver's detail text where it gave one.
#[derive(Clone, Debug)]
pub enum StoreFailure {
    UniqueViolation { details: Option<String> },
    Other,
}

/// The failure of the cursor decoder.
#[derive(Clone, Copy, Debug, PartialEq, Eq, Structural)]
pub struct Base64CursorError;

/// The translation of a data store failure whose displayed form is `cause`.
pub open spec fn store_error_spec(e: Error, failure: StoreFailure, cause: Seq<char>) -> bool {
    match failure {
        StoreFailure::UniqueViolation { details: Some(d) } => match hint_of(d@) {
            Some((column, value)) => e.is_unique_with(column, value),
            None => e.is_unhandled_with(cause),
        },
        _ => e.is_unhandled_with(cause),
    }
}

/// How a data store failure classifies: its variant, its database error
/// kind and the detail text of its error information.
pub uninterp spec fn store_failure_spec(e: diesel::result::Error) -> StoreFailure;

/// Whether a token validator failure is of the `InvalidToken` kind.
pub uninterp spec fn jwt_invalid_spec(e: jsonwebtoken::errors::Error) -> bool;

/// Relies on the shape of diesel::result::Error: a `DatabaseError` of kind
/// `UniqueViolation` is told apart from every other failure, and its detail
/// text is taken from `DatabaseErrorInformation::details`.
#[verifier::external_body]
fn store_failure_of(err: &diesel::result::Error) -> (r: StoreFailure)
    ensures
        r == store_failure_spec(*err),
{
    match err {
        diesel::result::Error::DatabaseError(
            diesel::result::DatabaseErrorKind::UniqueViolation,
            info,
        ) => {
            StoreFailure::UniqueViolation { details: info.details().map(String::from) }
        },
        _ => StoreFailure::Other,
    }
}

/// Relies on jsonwebtoken::errors::Error::kind, to tell the `InvalidToken`
/// kind from the others.
#[verifier::external_body]
fn is_invalid_token(err: &jsonwebtoken::errors::Error) -> (r: bool)
    ensures
        r == jwt_invalid_spec(*err),
{
    matches!(err.kind(), jsonwebtoken::errors::ErrorKind::InvalidToken)
}

impl Error {
    /// Translates a data store failure: a uniqueness violation whose detail
    /// text names its column becomes `Unique`; anything else is unhandled,
    /// carrying `cause`.
    pub fn from_store_failure(failure: &StoreFailure, cause: &str) -> (r: Error)
        ensures
            store_error_spec(r, *failure, cause@),
    {
        match failure {
            StoreFailure::UniqueViolation { details: Some(d) } => match constraint_hint(d.as_str()) {
                Some(hint) => match &hint.value {
                    Some(v) => Error::unique(hint.column.as_str(), Some(v.as_str())),
                    None => Error::unique(hint.column.as_str(), None),
                },
                None => Error::unhandled(cause),
            },
            _ => Error::unhandled(cause),
        }
    }

    /// Translates a token validator failure: an invalid token has its own
    /// code; any other kind is unhandled, carrying `cause`.
    pub fn from_token_failure(invalid_token: bool, cause: &str) -> (r: Error)
        ensures
            invalid_token ==> r.is_code_only(ErrorCode::InvalidJsonWebToken),
            !invalid_token ==> r.is_unhandled_with(cause@),
    {
        if invalid_token {
            Error::code(ErrorCode::InvalidJsonWebToken)
        } else {
            Error::unhandled(cause)
        }
    }

    /// Translates a failure of the data store driver.
    pub fn from_diesel(err: diesel::result::Error) -> (r: Error)
        ensures
            exists|cause: String|
                to_string_from_display_ensures::<diesel::result::Error>(&err, cause)
                    && store_error_spec(r, store_failure_spec(err), cause@),
            r.code == ErrorCode::Unique || r.code == ErrorCode::Unhandled,
    {
        let failure = store_failure_of(&err);
        let cause = err.to_string();
        let r = Error::from_store_failure(&failure, cause.as_str());
        r
    }

    /// Translates a failure of the token validator.
    pub fn from_jwt(err: jsonwebtoken::errors::Error) -> (r: Error)
        ensures
            jwt_invalid_spec(err) ==> r.is_code_only(ErrorCode::InvalidJsonWebToken),
            !jwt_invalid_spec(err) ==> exists|cause: String|
                to_string_from_display_ensures::<jsonwebtoken::errors::Error>(&err, cause)
                    && r.is_unhandled_with(cause@),
    {
        let invalid = is_invalid_token(&err);
        let cause = err.to_string();
        Error::from_token_failure(invalid, cause.as_str())
    }

    /// Translates a failure of the connection pool: always the opaque server
    /// error, so that nothing of the pool reaches a client.
    pub fn from_pool(err: r2d2::Error) -> (r: Error)
        ensures
            r.is_code_only(ErrorCode::ServerError),
    {
        Error::server_error()
    }

    /// Translates a failure of password hashing: always unhandled, carrying
    /// the displayed failure.
    pub fn from_argon2(err: argon2::Error) -> (r: Error)
        ensures
            exists|cause: String|
                to_string_from_display_ensures::<argon2::Error>(&err, cause)
                    && r.is_unhandled_with(cause@),
    {
        let cause = err.to_string();
        Error::unhandled(cause.as_str())
    }

    /// Translates a failure of the cursor decoder.
    pub fn from_cursor(err: Base64CursorError) -> (r: Error)
        ensures
            r.is_code_only(ErrorCode::Base64CursorError),
    {
        Error::code(ErrorCode::Base64CursorError)
    }

    /// Translates a failure of the upstream query engine: always the opaque
    /// server error, so that its taxonomy does not reach this contract.
    pub fn from_graphql(err: async_graphql::Error) -> (r: Error)
        ensures
            r.is_code_only(ErrorCode::ServerError),
    {
        Error::server_error()
    }
}

/// A uniqueness violation whose detail text is well formed translates to
/// `Unique`, on a non-empty field; one whose detail text is malformed or
/// missing translates to `Unhandled`.
pub proof fn lemma_unique_violation_outcome(e: Error, details: Option<String>, cause: Seq<char>)
    requires
        store_error_spec(e, StoreFailure::UniqueViolation { details }, cause),
    ensures
        match details {
            Some(d) => if has_column(d@) {
                &&& e.code == ErrorCode::Unique
                &&& opt_view(e.field) is Some
                &&& opt_view(e.field)->0.len() > 0
            } else {
                e.code == ErrorCode::Unhandled
            },
            None => e.code == ErrorCode::Unhandled,
        },
{
}

/// Every failure of the data store other than a uniqueness violation
/// translates to `Unhandled`, carrying its displayed form.
pub proof fn lemma_other_store_failure_unhandled(e: Error, cause: Seq<char>)
    requires
        store_error_spec(e, StoreFailure::Other, cause),
    ensures
        e.code == ErrorCode::Unhandled,
        e.is_unhandled_with(cause),
{
}

} // verus!
