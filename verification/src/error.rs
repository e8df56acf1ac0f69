//! The ways in which resolving or executing a request can fail.

use vstd::prelude::*;
use vstd::string::StringExecFns;

verus! {

/// A fatal condition. None of them is retried: each one ends the
/// invocation with a non-zero exit status.
#[derive(Debug, PartialEq, Eq)]
pub enum RequestError {
    /// The method token is not one of the supported methods; holds the token.
    InvalidMethod(String),
    /// The address is not a usable absolute URL.
    MalformedUrl { text: String, cause: String },
    /// The output sink could not be opened, written or flushed.
    IoFailure(String),
    /// The request could not be submitted or answered.
    TransportFailure(String),
}

impl RequestError {
    /// What the message says, as a sequence of characters.
    pub open spec fn message_spec(&self) -> Seq<char> {
        match self {
            RequestError::InvalidMethod(token) => "Invalid method '"@ + token@ + "'"@,
            RequestError::MalformedUrl { text, cause } => "Malformed URL '"@ + text@ + "': "@
                + cause@,
            RequestError::IoFailure(cause) => "Unable to open output: "@ + cause@,
            RequestError::TransportFailure(cause) => "Request failed: "@ + cause@,
        }
    }

    /// A one-line rendering for the error stream.
    pub fn message(&self) -> (r: String)
        ensures
            r@ == self.message_spec(),
    {
        match self {
            RequestError::InvalidMethod(token) => {
                "Invalid method '".to_owned().concat(token.as_str()).concat("'")
            },
            RequestError::MalformedUrl { text, cause } => {
                "Malformed URL '".to_owned().concat(text.as_str()).concat("': ").concat(
                    cause.as_str(),
                )
            },
            RequestError::IoFailure(cause) => {
                "Unable to open output: ".to_owned().concat(cause.as_str())
            },
            RequestError::TransportFailure(cause) => {
                "Request failed: ".to_owned().concat(cause.as_str())
            },
        }
    }

    /// The process exit status that reports this failure.
    pub fn exit_code(&self) -> (r: u8)
        ensures
            r == 1,
    {
        1
    }
}

} // verus!
