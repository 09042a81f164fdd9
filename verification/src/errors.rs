//! The failures the pipeline can report, and their message text.

use vstd::prelude::*;
use vstd::string::StringExecFns;

verus! {

/// A failure of the pipeline: fatal for the whole run (`InvalidFormat`,
/// `NoInput`) or recovered per item (`InvalidUuid`, `TimestampOutOfRange`).
#[derive(Debug, PartialEq, Eq)]
pub enum Error {
    /// The requested format name is not one of the recognized keywords; holds
    /// the name as given.
    InvalidFormat(String),
    /// The input text is not a syntactically valid UUID literal; holds the
    /// parser's reason.
    InvalidUuid(String),
    /// The calendar type cannot represent the extracted integer.
    TimestampOutOfRange,
    /// No candidate UUID text was provided.
    NoInput,
}

/// The message text of each error.
pub open spec fn message_of(e: Error) -> Seq<char> {
    match e {
        Error::InvalidFormat(name) => "Unknown format: "@ + name@
            + ". Use: iso, unix, unix-ms, json"@,
        Error::InvalidUuid(reason) => "Invalid UUID: "@ + reason@,
        Error::TimestampOutOfRange => "Timestamp out of range"@,
        Error::NoInput => "No UUID provided. Use --help for usage information."@,
    }
}

impl Error {
    /// The human-readable message for this error.
    pub fn message(&self) -> (r: String)
        ensures
            r@ == message_of(*self),
    {
        match self {
            Error::InvalidFormat(name) => {
                let mut s = String::from_str("Unknown format: ");
                s.append(name.as_str());
                s.append(". Use: iso, unix, unix-ms, json");
                proof {
                    assert(s@ =~= message_of(*self));
                }
                s
            },
            Error::InvalidUuid(reason) => {
                let mut s = String::from_str("Invalid UUID: ");
                s.append(reason.as_str());
                s
            },
            Error::TimestampOutOfRange => String::from_str("Timestamp out of range"),
            Error::NoInput => String::from_str(
                "No UUID provided. Use --help for usage information.",
            ),
        }
    }
}

} // verus!
