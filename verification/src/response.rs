//! What a finished fetch hands over: a response as it came, or the reason
//! why none came.

use crate::headers::Headers;
use vstd::prelude::*;

verus! {

/// A response as the transport delivered it: the final URL, the status line,
/// the header table and the body. A status of 400 or more is still a response.
pub struct RawResponse {
    pub url: String,
    pub status: u16,
    pub status_text: String,
    pub headers: Headers,
    pub bytes: Vec<u8>,
}

/// Why no response came.
pub enum TransportError {
    /// The transport failed (name lookup, connect, TLS, I/O) and said why.
    Failed(String),
    /// The background work ended without delivering anything.
    Aborted,
}

/// What a finished fetch yields.
pub type FetchOutcome = Result<RawResponse, TransportError>;

impl TransportError {
    /// The message shown for this error: the transport's own words, or a
    /// fixed text for an aborted request.
    pub open spec fn message_text(self) -> Seq<char> {
        match self {
            TransportError::Failed(message) => message@,
            TransportError::Aborted => "request aborted"@,
        }
    }

    /// The message shown for this error.
    pub fn message(self) -> (message: String)
        ensures
            message@ == self.message_text(),
    {
        match self {
            TransportError::Failed(message) => message,
            TransportError::Aborted => "request aborted".to_owned(),
        }
    }
}

} // verus!
