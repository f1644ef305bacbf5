//! The errors that end a run before anything is sent.

use vstd::prelude::*;
use vstd::string::*;

verus! {

/// Why a run cannot go on.
#[derive(Debug, Clone, PartialEq, Eq)]
pub enum Error {
    /// The home directory of the user could not be determined.
    NoHomeDirectory,
    /// A whole namespace was to be deleted, but none was named.
    DeleteAllWithoutTarget,
    /// A stored record was to be deleted, but no namespace was named.
    DeleteWithoutTarget,
    /// A header was not written as a name, a colon and a value; it is kept
    /// as it was given.
    InvalidHeader(String),
    /// Neither the run nor the stored record names a destination.
    MissingUrl,
    /// The record to send names no method.
    MissingMethod,
    /// The method is none of GET, POST, PUT and DELETE; it is kept as it
    /// was found.
    UnsupportedMethod(String),
    /// The walk through the storage tree ended without a namespace: a
    /// directory could not be listed, or a question was not answered.
    SelectionAborted,
}

impl Error {
    /// Whether the error says that the request itself is not acceptable: a
    /// malformed header, a missing destination, a missing or unsupported
    /// method.
    pub open spec fn is_validation(self) -> bool {
        self is InvalidHeader || self is MissingUrl || self is MissingMethod
            || self is UnsupportedMethod
    }

    /// The text of the message that goes with the error.
    pub open spec fn message_text(self) -> Seq<char> {
        match self {
            Error::NoHomeDirectory => "Could not determine user home directory"@,
            Error::DeleteAllWithoutTarget => "--delete-all requires TARGET to be specified."@,
            Error::DeleteWithoutTarget => "--delete requires TARGET to be specified."@,
            Error::InvalidHeader(header) => "Invalid header format: "@ + header@,
            Error::MissingUrl => "URL is not specified"@,
            Error::MissingMethod => "HTTP method is not specified"@,
            Error::UnsupportedMethod(method) => "Unsupported HTTP method: "@ + method@,
            Error::SelectionAborted => "Namespace selection was aborted"@,
        }
    }

    /// Tells whether the error says that the request itself is not
    /// acceptable.
    pub fn validation(&self) -> (yes: bool)
        ensures
            yes == self.is_validation(),
    {
        match self {
            Error::InvalidHeader(_) => true,
            Error::MissingUrl => true,
            Error::MissingMethod => true,
            Error::UnsupportedMethod(_) => true,
            _ => false,
        }
    }

    /// The message that goes with the error.
    pub fn message(&self) -> (text: String)
        ensures
            text@ == self.message_text(),
    {
        match self {
            Error::NoHomeDirectory => String::from_str("Could not determine user home directory"),
            Error::DeleteAllWithoutTarget => String::from_str(
                "--delete-all requires TARGET to be specified.",
            ),
            Error::DeleteWithoutTarget => String::from_str(
                "--delete requires TARGET to be specified.",
            ),
            Error::InvalidHeader(header) => String::from_str("Invalid header format: ").concat(
                header.as_str(),
            ),
            Error::MissingUrl => String::from_str("URL is not specified"),
            Error::MissingMethod => String::from_str("HTTP method is not specified"),
            Error::UnsupportedMethod(method) => String::from_str("Unsupported HTTP method: ").concat(
                method.as_str(),
            ),
            Error::SelectionAborted => String::from_str("Namespace selection was aborted"),
        }
    }
}

} // verus!
