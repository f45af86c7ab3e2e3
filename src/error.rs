use vstd::prelude::*;
use vstd::string::StringExecFns;

verus! {

/// What can go wrong in the transport and the storage engine.
#[derive(Debug, PartialEq, Eq)]
pub enum Error {
    /// A log level name that is not known.
    InvalidLogLevel(String),
    /// A `Replay-Nonce` header whose value is not a nonce.
    InvalidNonce(String),
    /// A signed request was due while no nonce was held.
    MissingNonce,
    /// The server answered with a status outside the 2xx range.
    HttpStatus(u16),
    /// Every attempt of a signed request met a recoverable error.
    TooManyErrors,
    /// An owner or group given as digits that does not fit a numeric id.
    InvalidPrincipal(String),
    /// An event that does not answer the pending action.
    UnexpectedEvent,
    /// A failure reported by a capability: network, file system, hook or signer.
    Other(String),
}

impl Error {
    /// A human readable account of the error.
    pub fn message(&self) -> String {
        match self {
            Error::InvalidLogLevel(v) => v.clone().concat(": invalid log level"),
            Error::InvalidNonce(v) => v.clone().concat(": invalid nonce."),
            Error::MissingNonce => "no nonce available".to_owned(),
            Error::HttpStatus(code) => "HTTP error: ".to_owned().concat(code.to_string().as_str()),
            Error::TooManyErrors => "Too much errors, will not retry".to_owned(),
            Error::InvalidPrincipal(v) => v.clone().concat(": invalid user or group id"),
            Error::UnexpectedEvent => "unexpected event".to_owned(),
            Error::Other(v) => v.clone(),
        }
    }
}

} // verus!
