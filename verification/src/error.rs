//! The error type that the library's fallible functions return.
use vstd::prelude::*;

use crate::text::concat2;

verus! {

/// What went wrong, with a message for the caller.
pub enum ServiceError {
    /// The request cannot be served as it stands.
    BadRequest(String),
    /// The thing asked for does not exist.
    NotFound(String),
    /// A failure on the service's side.
    InternalErr(String),
    /// A URL could not be parsed; the message is the parser's.
    UrlParse(String),
    /// A failure of an outside computation, by its message.
    Anyhow(String),
}

impl ServiceError {
    /// The variant's prefix, before the message.
    pub open spec fn prefix_of(&self) -> Seq<char> {
        match self {
            ServiceError::BadRequest(_) => "Bad request: "@,
            ServiceError::NotFound(_) => "Not found: "@,
            ServiceError::InternalErr(_) => "Internal: "@,
            ServiceError::UrlParse(_) => "UrlParseErr: "@,
            ServiceError::Anyhow(_) => Seq::<char>::empty(),
        }
    }

    /// The message carried by any variant.
    pub open spec fn text(&self) -> Seq<char> {
        match self {
            ServiceError::BadRequest(m) => m@,
            ServiceError::NotFound(m) => m@,
            ServiceError::InternalErr(m) => m@,
            ServiceError::UrlParse(m) => m@,
            ServiceError::Anyhow(m) => m@,
        }
    }

    /// The error as a line of text: its prefix, then its message.
    pub fn message(&self) -> (r: String)
        ensures
            r@ == self.prefix_of() + self.text(),
    {
        match self {
            ServiceError::BadRequest(m) => concat2("Bad request: ", m.as_str()),
            ServiceError::NotFound(m) => concat2("Not found: ", m.as_str()),
            ServiceError::InternalErr(m) => concat2("Internal: ", m.as_str()),
            ServiceError::UrlParse(m) => concat2("UrlParseErr: ", m.as_str()),
            ServiceError::Anyhow(m) => {
                let r = String::from_str(m.as_str());
                assert(Seq::<char>::empty() + m@ =~= m@);
                r
            },
        }
    }
}

} // verus!
