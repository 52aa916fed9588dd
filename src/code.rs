use vstd::prelude::*;

verus! {

/// The closed set of stable, client-visible failure identifiers.
#[derive(Clone, Copy, Debug, PartialEq, Eq, Structural)]
pub enum ErrorCode {
    Base64CursorError,
    ServerError,
    InvalidCredentials,
    InvalidJsonWebToken,
    Unique,
    Unhandled,
}

impl ErrorCode {
    /// The fixed wire string of each code.
    pub open spec fn wire_name(self) -> Seq<char> {
        match self {
            ErrorCode::Base64CursorError => "BASE64_CURSOR_ERROR"@,
            ErrorCode::ServerError => "SERVER_ERROR"@,
            ErrorCode::InvalidCredentials => "INVALID_CREDENTIALS"@,
            ErrorCode::InvalidJsonWebToken => "INVALID_JWT"@,
            ErrorCode::Unique => "UNIQUE"@,
            ErrorCode::Unhandled => "UNHANDLED"@,
        }
    }

    /// The code whose wire string is `s`, if there is one.
    pub open spec fn parse_wire_name(s: Seq<char>) -> Option<ErrorCode> {
        if exists|c: ErrorCode| c.wire_name() == s {
            Some(choose|c: ErrorCode| c.wire_name() == s)
        } else {
            None
        }
    }

    /// The wire string of this code.
    pub fn wire_string(&self) -> (r: String)
        ensures
            r@ == self.wire_name(),
    {
        match self {
            ErrorCode::Base64CursorError => String::from_str("BASE64_CURSOR_ERROR"),
            ErrorCode::ServerError => String::from_str("SERVER_ERROR"),
            ErrorCode::InvalidCredentials => String::from_str("INVALID_CREDENTIALS"),
            ErrorCode::InvalidJsonWebToken => String::from_str("INVALID_JWT"),
            ErrorCode::Unique => String::from_str("UNIQUE"),
            ErrorCode::Unhandled => String::from_str("UNHANDLED"),
        }
    }

    /// Reads a wire string back into its code; `None` for any other text.
    pub fn from_wire(s: &str) -> (r: Option<ErrorCode>)
        ensures
            r == Self::parse_wire_name(s@),
    {
        let t = String::from_str(s);
        let r = if t == String::from_str("BASE64_CURSOR_ERROR") {
            Some(ErrorCode::Base64CursorError)
        } else if t == String::from_str("SERVER_ERROR") {
            Some(ErrorCode::ServerError)
        } else if t == String::from_str("INVALID_CREDENTIALS") {
            Some(ErrorCode::InvalidCredentials)
        } else if t == String::from_str("INVALID_JWT") {
            Some(ErrorCode::InvalidJsonWebToken)
        } else if t == String::from_str("UNIQUE") {
            Some(ErrorCode::Unique)
        } else if t == String::from_str("UNHANDLED") {
            Some(ErrorCode::Unhandled)
        } else {
            None
        };
        proof {
            match r {
                Some(c) => lemma_wire_name_round_trip(c),
                None => {
                    assert forall|c: ErrorCode| c.wire_name() != s@ by {
                        match c {
                            ErrorCode::Base64CursorError => {},
                            ErrorCode::ServerError => {},
                            ErrorCode::InvalidCredentials => {},
                            ErrorCode::InvalidJsonWebToken => {},
                            ErrorCode::Unique => {},
                            ErrorCode::Unhandled => {},
                        }
                    }
                },
            }
        }
        r
    }
}

/// No two codes share a wire string.
pub proof fn lemma_wire_name_injective(a: ErrorCode, b: ErrorCode)
    ensures
        a.wire_name() == b.wire_name() ==> a == b,
{
    reveal_strlit("BASE64_CURSOR_ERROR");
    reveal_strlit("SERVER_ERROR");
    reveal_strlit("INVALID_CREDENTIALS");
    reveal_strlit("INVALID_JWT");
    reveal_strlit("UNIQUE");
    reveal_strlit("UNHANDLED");
    if a.wire_name() == b.wire_name() && a != b {
        assert(a.wire_name().len() == b.wire_name().len());
        assert(a.wire_name()[0] == b.wire_name()[0]);
        assert(a.wire_name()[1] == b.wire_name()[1]);
        assert(a.wire_name()[2] == b.wire_name()[2]);
        assert(a.wire_name()[4] == b.wire_name()[4]);
    }
}

/// Reading a code's wire string back gives the same code.
pub proof fn lemma_wire_name_round_trip(c: ErrorCode)
    ensures
        ErrorCode::parse_wire_name(c.wire_name()) == Some(c),
{
    let d = choose|d: ErrorCode| d.wire_name() == c.wire_name();
    lemma_wire_name_injective(c, d);
}

} // verus!
