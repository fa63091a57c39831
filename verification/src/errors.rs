//! The error taxonomy of the client core.
//!
//! Every failure is surfaced to the caller unrecovered: the core performs no
//! retry and no degradation.
use crate::text::{spec_decimal_digits, u32_to_string};
use vstd::prelude::*;

verus! {

/// What can go wrong between resolving a configuration and reading an answer.
#[derive(Debug)]
pub enum ClientError {
    /// No credential was found through any source. Detected before any
    /// network activity.
    CredentialMissing,
    /// The persisted configuration store is unreadable, corrupt or unwritable.
    ConfigError(String),
    /// A transport-level failure, wrapping the underlying cause.
    NetworkError(String),
    /// A non-2xx response; carries the status code and the raw response body
    /// verbatim.
    ApiError { status: u16, body: String },
    /// A 2xx response that contains zero choices.
    EmptyResponse,
    /// Reading a source file or writing an output file failed.
    IoError(String),
}

/// The one-line description of an error.
pub open spec fn spec_describe(e: &ClientError) -> Seq<char> {
    match e {
        ClientError::CredentialMissing => "API key not found. Set it with 'nimbuscode config --api-key YOUR_API_KEY' or the OPENROUTER_API_KEY environment variable."@,
        ClientError::ConfigError(m) => "configuration error: "@ + m@,
        ClientError::NetworkError(m) => "network error: "@ + m@,
        ClientError::ApiError { status, body } => "OpenRouter API returned error (status "@
            + spec_decimal_digits(*status as nat) + "): "@ + body@,
        ClientError::EmptyResponse => "OpenRouter API returned no choices"@,
        ClientError::IoError(m) => "i/o error: "@ + m@,
    }
}

impl ClientError {
    /// A one-line description of the error, for the invocation boundary to
    /// print.
    pub fn describe(&self) -> (r: String)
        ensures
            r@ == spec_describe(self),
    {
        match self {
            ClientError::CredentialMissing => String::from_str(
                "API key not found. Set it with 'nimbuscode config --api-key YOUR_API_KEY' or the OPENROUTER_API_KEY environment variable.",
            ),
            ClientError::ConfigError(m) => {
                let mut r = String::from_str("configuration error: ");
                r.append(m.as_str());
                r
            },
            ClientError::NetworkError(m) => {
                let mut r = String::from_str("network error: ");
                r.append(m.as_str());
                r
            },
            ClientError::ApiError { status, body } => {
                let digits = u32_to_string(*status as u32);
                let mut r = String::from_str("OpenRouter API returned error (status ");
                r.append(digits.as_str());
                r.append("): ");
                r.append(body.as_str());
                r
            },
            ClientError::EmptyResponse => String::from_str("OpenRouter API returned no choices"),
            ClientError::IoError(m) => {
                let mut r = String::from_str("i/o error: ");
                r.append(m.as_str());
                r
            },
        }
    }
}

} // verus!
