//! The error taxonomy of the client core.
//!
//! Every failure a call can produce is one of these, returned as a value:
//! nothing is retried and nothing panics on a malformed daemon response.

use vstd::prelude::*;

verus! {

/// Mathematical image of a `DockerError`.
pub enum DockerErrorV {
    /// A value could not be written in the wire encoding.
    Encoding,
    /// The round trip itself failed, with the transport's message.
    Transport(Seq<char>),
    /// The daemon answered with an error status; the message is the daemon's
    /// own when its error body could be read, else the raw body text.
    Api { status_code: u16, message: Seq<char> },
    /// A success response did not match the closed wire schema; carries the
    /// raw body text.
    Decode(Seq<char>),
}

/// What a failing call returns.
#[derive(Debug, Clone, PartialEq, Eq)]
pub enum DockerError {
    Encoding,
    Transport(String),
    Api { status_code: u16, message: String },
    Decode(String),
}

impl View for DockerError {
    type V = DockerErrorV;

    open spec fn view(&self) -> DockerErrorV {
        match self {
            DockerError::Encoding => DockerErrorV::Encoding,
            DockerError::Transport(m) => DockerErrorV::Transport(m@),
            DockerError::Api { status_code, message } => DockerErrorV::Api {
                status_code: *status_code,
                message: message@,
            },
            DockerError::Decode(b) => DockerErrorV::Decode(b@),
        }
    }
}

} // verus!
