//! The client-facing shape of an error: a fixed generic message, with the
//! stable code and any safe detail in an extension object.

use vstd::prelude::*;

use crate::code::{lemma_wire_name_round_trip, ErrorCode};
use crate::error::{opt_view, Error};

verus! {

/// The top-level message of every error response.
pub open spec fn generic_message() -> Seq<char> {
    "An error occurred"@
}

/// The structured extension object of an error response.
#[derive(Clone, Debug)]
pub struct WireExtensions {
    pub code: String,
    pub message: Option<String>,
    pub field: Option<String>,
}

/// An error response as a client receives it.
#[derive(Clone, Debug)]
pub struct WireError {
    pub message: String,
    pub extensions: WireExtensions,
}

fn copy_text(o: &Option<String>) -> (r: Option<String>)
    ensures
        opt_view(r) == opt_view(*o),
{
    match o {
        Some(s) => Some(s.clone()),
        None => None,
    }
}

impl Error {
    /// Renders this error for a client: the generic message on top, and in
    /// the extensions the code's wire string, with the message and field
    /// exactly where this record has them.
    pub fn to_wire(&self) -> (r: WireError)
        ensures
            r.message@ == generic_message(),
            r.extensions.code@ == self.code.wire_name(),
            opt_view(r.extensions.message) == opt_view(self.message),
            opt_view(r.extensions.field) == opt_view(self.field),
    {
        WireError {
            message: String::from_str("An error occurred"),
            extensions: WireExtensions {
                code: self.code.wire_string(),
                message: copy_text(&self.message),
                field: copy_text(&self.field),
            },
        }
    }
}

/// The code that a response carries reads back as the code of the error
/// that it renders.
pub proof fn lemma_wire_code_reads_back(e: Error, w: WireError)
    requires
        w.extensions.code@ == e.code.wire_name(),
    ensures
        ErrorCode::parse_wire_name(w.extensions.code@) == Some(e.code),
{
    lemma_wire_name_round_trip(e.code);
}

} // verus!
