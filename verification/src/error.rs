//! The ways in which reading or seeking a web resource fails.

use reqwest::StatusCode;
use vstd::prelude::*;
use vstd::string::StringExecFns;

use crate::number::decimal_text;

verus! {

/// The error type of `reqwest`.
#[verifier::external_type_specification]
#[verifier::external_body]
pub struct ExReqwestError(reqwest::Error);

/// The kind of an error, named after the kinds of I/O errors.
#[derive(Clone, Copy, Debug, PartialEq, Eq, Structural)]
pub enum ErrorKind {
    /// The seek goes to a position before the first byte.
    InvalidInput,
    /// The seek is relative to the file end, and the size is not known.
    Unsupported,
    /// The webserver does not support range requests.
    NotSeekable,
    /// The http request failed.
    Other,
}

/// The webserver answered with a status that is no http error, but that does
/// not deliver the requested part of the resource either.
#[derive(Clone, Copy, Debug)]
pub struct HttpResponseStatusError(pub u16);

/// An error of a web resource.
#[derive(Debug)]
pub enum FileError {
    /// The seek goes to a position before the first byte.
    InvalidInput,
    /// The seek is relative to the file end, and the size is not known.
    Unsupported,
    /// The webserver does not support range requests.
    NotSeekable,
    /// The http request failed, or was answered with an http error status.
    Http(reqwest::Error),
    /// The request was answered with an unexpected status.
    Status(HttpResponseStatusError),
    /// The announced body would end beyond the largest file position.
    SizeOverflow,
}

/// The reason phrase that `StatusCode` displays behind the number of a status,
/// such as `No Content`.
pub uninterp spec fn status_reason(status: u16) -> Seq<char>;

/// The text of a status: its number and its reason phrase.
pub open spec fn status_text(status: u16) -> Seq<char> {
    decimal_text(status as nat) + " "@ + status_reason(status)
}

/// The `Display` impl of `StatusCode` writes the number, a space, and a reason
/// phrase that depends on the number alone.
/// The numbers from 100 to 999 are those that `StatusCode::from_u16` accepts.
#[verifier::external_body]
fn display_status(status: u16) -> (text: String)
    requires
        100 <= status <= 999,
    ensures
        text@ == decimal_text(status as nat) + " "@ + status_reason(status),
{
    StatusCode::from_u16(status).unwrap().to_string()
}

impl HttpResponseStatusError {
    /// The error message, such as `HTTP status error: 204 No Content`.
    pub fn message(&self) -> (message: String)
        requires
            100 <= self.0 <= 999,
        ensures
            message@ == "HTTP status error: "@ + status_text(self.0),
    {
        Self::message_with(display_status(self.0).as_str())
    }

    /// The error message for a status that is displayed as `status`.
    pub fn message_with(status: &str) -> (message: String)
        ensures
            message@ == "HTTP status error: "@ + status@,
    {
        let mut message = String::from_str("HTTP status error: ");
        message.append(status);
        message
    }
}

impl FileError {
    /// The kind of this error.
    pub open spec fn spec_kind(self) -> ErrorKind {
        match self {
            FileError::InvalidInput => ErrorKind::InvalidInput,
            FileError::Unsupported => ErrorKind::Unsupported,
            FileError::NotSeekable => ErrorKind::NotSeekable,
            FileError::Http(_) => ErrorKind::Other,
            FileError::Status(_) => ErrorKind::Other,
            FileError::SizeOverflow => ErrorKind::Other,
        }
    }

    /// The kind of this error.
    pub fn kind(&self) -> (kind: ErrorKind)
        ensures
            kind == self.spec_kind(),
    {
        match self {
            FileError::InvalidInput => ErrorKind::InvalidInput,
            FileError::Unsupported => ErrorKind::Unsupported,
            FileError::NotSeekable => ErrorKind::NotSeekable,
            FileError::Http(_) => ErrorKind::Other,
            FileError::Status(_) => ErrorKind::Other,
            FileError::SizeOverflow => ErrorKind::Other,
        }
    }
}

} // verus!
