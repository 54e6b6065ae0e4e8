//! Errors of a call to the bot API.

use vstd::prelude::*;

verus! {

/// Why a response body could not be read as the expected structure.
#[derive(Debug, Clone, PartialEq, Eq)]
pub enum JsonError {
    /// The text is not a JSON object; carries the parser's diagnostic.
    Malformed(String),
    /// A required field is absent; carries the field's name.
    MissingField(String),
    /// A field holds a value of the wrong type; carries the field's name and the
    /// parser's diagnostic.
    InvalidField(String, String),
}

/// What a [`JsonError`] says, without the parser's diagnostic text.
pub enum JsonFault {
    Malformed,
    MissingField(Seq<char>),
    InvalidField(Seq<char>),
}

impl View for JsonError {
    type V = JsonFault;

    open spec fn view(&self) -> JsonFault {
        match self {
            JsonError::Malformed(_) => JsonFault::Malformed,
            JsonError::MissingField(f) => JsonFault::MissingField(f@),
            JsonError::InvalidField(f, _) => JsonFault::InvalidField(f@),
        }
    }
}

/// Errors that a call to the bot API may end with; exactly one per failed call.
#[derive(Debug, Clone, PartialEq, Eq)]
pub enum ClientError {
    /// The HTTP exchange itself failed (network, DNS, TLS, timeout); carries the
    /// transport's diagnostic.
    HttpError(String),
    /// Reading the response body failed; carries the I/O diagnostic.
    IoError(String),
    /// The response body does not have the expected structure.
    JsonError(JsonError),
    /// The server answered with a status outside 200..=299; carries the code.
    StatusError(u16),
}

} // verus!
