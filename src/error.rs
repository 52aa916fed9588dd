use vstd::prelude::*;

use crate::code::ErrorCode;

verus! {

/// The view of an optional string.
pub open spec fn opt_view(o: Option<String>) -> Option<Seq<char>> {
    match o {
        Some(s) => Some(s@),
        None => None,
    }
}

/// The message of a uniqueness conflict on `field`, naming the clashing
/// value where it is known.
pub open spec fn unique_message(field: Seq<char>, value: Option<Seq<char>>) -> Seq<char> {
    match value {
        Some(v) => "A "@ + field + " with "@ + v + " already exists"@,
        None => "The "@ + field + " already exists"@,
    }
}

/// The fixed label that an unhandled error carries as its field.
pub open spec fn unhandled_label() -> Seq<char> {
    "An unhandled error occurred"@
}

/// The canonical error record.
#[derive(Clone, Debug)]
pub struct Error {
    pub field: Option<String>,
    pub message: Option<String>,
    pub code: ErrorCode,
}

impl Error {
    /// Whether this record is the code-only error of `c`.
    pub open spec fn is_code_only(self, c: ErrorCode) -> bool {
        &&& self.code == c
        &&& self.field is None
        &&& self.message is None
    }

    /// Whether this record is the unhandled error whose cause reads `cause`.
    pub open spec fn is_unhandled_with(self, cause: Seq<char>) -> bool {
        &&& self.code == ErrorCode::Unhandled
        &&& opt_view(self.field) == Some(unhandled_label())
        &&& opt_view(self.message) == Some(cause)
    }

    /// Whether this record is the uniqueness conflict on `field`, with the
    /// clashing value where it is known.
    pub open spec fn is_unique_with(self, field: Seq<char>, value: Option<Seq<char>>) -> bool {
        &&& self.code == ErrorCode::Unique
        &&& opt_view(self.field) == Some(field)
        &&& opt_view(self.message) == Some(unique_message(field, value))
    }

    /// A record with every part given.
    pub fn new(field: &str, message: &str, code: ErrorCode) -> (r: Self)
        ensures
            opt_view(r.field) == Some(field@),
            opt_view(r.message) == Some(message@),
            r.code == code,
    {
        Error { field: Some(String::from_str(field)), message: Some(String::from_str(message)), code }
    }

    /// A record that carries only its code.
    pub fn code(code: ErrorCode) -> (r: Self)
        ensures
            r.is_code_only(code),
    {
        Error { field: None, message: None, code }
    }

    /// The opaque server error.
    pub fn server_error() -> (r: Self)
        ensures
            r.is_code_only(ErrorCode::ServerError),
    {
        Error { field: None, message: None, code: ErrorCode::ServerError }
    }

    /// A uniqueness conflict on `field`; the message names `value` when it is given.
    pub fn unique(field: &str, value: Option<&str>) -> (r: Self)
        ensures
            r.is_unique_with(
                field@,
                match value {
                    Some(v) => Some(v@),
                    None => None,
                },
            ),
    {
        let mut message: String;
        match value {
            Some(v) => {
                message = String::from_str("A ");
                message.append(field);
                message.append(" with ");
                message.append(v);
                message.append(" already exists");
            },
            None => {
                message = String::from_str("The ");
                message.append(field);
                message.append(" already exists");
            },
        }
        Error { field: Some(String::from_str(field)), message: Some(message), code: ErrorCode::Unique }
    }

    /// An opaque failure, kept under a fixed label with the text of its cause.
    pub fn unhandled(cause: &str) -> (r: Self)
        ensures
            r.is_unhandled_with(cause@),
    {
        Error {
            field: Some(String::from_str("An unhandled error occurred")),
            message: Some(String::from_str(cause)),
            code: ErrorCode::Unhandled,
        }
    }
}

} // verus!
