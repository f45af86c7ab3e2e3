use vstd::prelude::*;

use crate::text::str_eq;

verus! {

/// The error types that an ACME server reports, as listed by RFC 8555.
#[derive(Debug, Clone, Copy, PartialEq, Eq, Structural)]
pub enum AcmeError {
    AccountDoesNotExist,
    AlreadyRevoked,
    BadCSR,
    BadNonce,
    BadPublicKey,
    BadRevocationReason,
    BadSignatureAlgorithm,
    Caa,
    Compound,
    Connection,
    Dns,
    ExternalAccountRequired,
    IncorrectResponse,
    InvalidContact,
    Malformed,
    OrderNotReady,
    RateLimited,
    RejectedIdentifier,
    ServerInternal,
    Tls,
    Unauthorized,
    UnsupportedContact,
    UnsupportedIdentifier,
    UserActionRequired,
    /// A type outside the ACME error namespace, or none.
    Unknown,
}

/// The error type that a problem document's `type` names.
pub open spec fn acme_error_named(t: Seq<char>) -> AcmeError {
    if t == "urn:ietf:params:acme:error:accountDoesNotExist"@ {
        AcmeError::AccountDoesNotExist
    } else if t == "urn:ietf:params:acme:error:alreadyRevoked"@ {
        AcmeError::AlreadyRevoked
    } else if t == "urn:ietf:params:acme:error:badCSR"@ {
        AcmeError::BadCSR
    } else if t == "urn:ietf:params:acme:error:badNonce"@ {
        AcmeError::BadNonce
    } else if t == "urn:ietf:params:acme:error:badPublicKey"@ {
        AcmeError::BadPublicKey
    } else if t == "urn:ietf:params:acme:error:badRevocationReason"@ {
        AcmeError::BadRevocationReason
    } else if t == "urn:ietf:params:acme:error:badSignatureAlgorithm"@ {
        AcmeError::BadSignatureAlgorithm
    } else if t == "urn:ietf:params:acme:error:caa"@ {
        AcmeError::Caa
    } else if t == "urn:ietf:params:acme:error:compound"@ {
        AcmeError::Compound
    } else if t == "urn:ietf:params:acme:error:connection"@ {
        AcmeError::Connection
    } else if t == "urn:ietf:params:acme:error:dns"@ {
        AcmeError::Dns
    } else if t == "urn:ietf:params:acme:error:externalAccountRequired"@ {
        AcmeError::ExternalAccountRequired
    } else if t == "urn:ietf:params:acme:error:incorrectResponse"@ {
        AcmeError::IncorrectResponse
    } else if t == "urn:ietf:params:acme:error:invalidContact"@ {
        AcmeError::InvalidContact
    } else if t == "urn:ietf:params:acme:error:malformed"@ {
        AcmeError::Malformed
    } else if t == "urn:ietf:params:acme:error:orderNotReady"@ {
        AcmeError::OrderNotReady
    } else if t == "urn:ietf:params:acme:error:rateLimited"@ {
        AcmeError::RateLimited
    } else if t == "urn:ietf:params:acme:error:rejectedIdentifier"@ {
        AcmeError::RejectedIdentifier
    } else if t == "urn:ietf:params:acme:error:serverInternal"@ {
        AcmeError::ServerInternal
    } else if t == "urn:ietf:params:acme:error:tls"@ {
        AcmeError::Tls
    } else if t == "urn:ietf:params:acme:error:unauthorized"@ {
        AcmeError::Unauthorized
    } else if t == "urn:ietf:params:acme:error:unsupportedContact"@ {
        AcmeError::UnsupportedContact
    } else if t == "urn:ietf:params:acme:error:unsupportedIdentifier"@ {
        AcmeError::UnsupportedIdentifier
    } else if t == "urn:ietf:params:acme:error:userActionRequired"@ {
        AcmeError::UserActionRequired
    } else {
        AcmeError::Unknown
    }
}

impl AcmeError {
    /// A fresh attempt may succeed where this error came.
    pub open spec fn is_recoverable_spec(self) -> bool {
        self is BadNonce
            || self is Connection
            || self is Dns
            || self is Malformed
            || self is RateLimited
            || self is ServerInternal
            || self is Tls
    }

    /// Tells whether a fresh attempt may succeed where this error came.
    pub fn is_recoverable(&self) -> (r: bool)
        ensures
            r == self.is_recoverable_spec(),
    {
        match self {
            AcmeError::BadNonce | AcmeError::Connection | AcmeError::Dns | AcmeError::Malformed | AcmeError::RateLimited | AcmeError::ServerInternal | AcmeError::Tls => true,
            _ => false,
        }
    }

    /// Reads the error type from a problem document's `type` field.
    pub fn from_type(t: &str) -> (r: AcmeError)
        ensures
            r == acme_error_named(t@),
    {
        if str_eq(t, "urn:ietf:params:acme:error:accountDoesNotExist") {
            AcmeError::AccountDoesNotExist
        } else if str_eq(t, "urn:ietf:params:acme:error:alreadyRevoked") {
            AcmeError::AlreadyRevoked
        } else if str_eq(t, "urn:ietf:params:acme:error:badCSR") {
            AcmeError::BadCSR
        } else if str_eq(t, "urn:ietf:params:acme:error:badNonce") {
            AcmeError::BadNonce
        } else if str_eq(t, "urn:ietf:params:acme:error:badPublicKey") {
            AcmeError::BadPublicKey
        } else if str_eq(t, "urn:ietf:params:acme:error:badRevocationReason") {
            AcmeError::BadRevocationReason
        } else if str_eq(t, "urn:ietf:params:acme:error:badSignatureAlgorithm") {
            AcmeError::BadSignatureAlgorithm
        } else if str_eq(t, "urn:ietf:params:acme:error:caa") {
            AcmeError::Caa
        } else if str_eq(t, "urn:ietf:params:acme:error:compound") {
            AcmeError::Compound
        } else if str_eq(t, "urn:ietf:params:acme:error:connection") {
            AcmeError::Connection
        } else if str_eq(t, "urn:ietf:params:acme:error:dns") {
            AcmeError::Dns
        } else if str_eq(t, "urn:ietf:params:acme:error:externalAccountRequired") {
            AcmeError::ExternalAccountRequired
        } else if str_eq(t, "urn:ietf:params:acme:error:incorrectResponse") {
            AcmeError::IncorrectResponse
        } else if str_eq(t, "urn:ietf:params:acme:error:invalidContact") {
            AcmeError::InvalidContact
        } else if str_eq(t, "urn:ietf:params:acme:error:malformed") {
            AcmeError::Malformed
        } else if str_eq(t, "urn:ietf:params:acme:error:orderNotReady") {
            AcmeError::OrderNotReady
        } else if str_eq(t, "urn:ietf:params:acme:error:rateLimited") {
            AcmeError::RateLimited
        } else if str_eq(t, "urn:ietf:params:acme:error:rejectedIdentifier") {
            AcmeError::RejectedIdentifier
        } else if str_eq(t, "urn:ietf:params:acme:error:serverInternal") {
            AcmeError::ServerInternal
        } else if str_eq(t, "urn:ietf:params:acme:error:tls") {
            AcmeError::Tls
        } else if str_eq(t, "urn:ietf:params:acme:error:unauthorized") {
            AcmeError::Unauthorized
        } else if str_eq(t, "urn:ietf:params:acme:error:unsupportedContact") {
            AcmeError::UnsupportedContact
        } else if str_eq(t, "urn:ietf:params:acme:error:unsupportedIdentifier") {
            AcmeError::UnsupportedIdentifier
        } else if str_eq(t, "urn:ietf:params:acme:error:userActionRequired") {
            AcmeError::UserActionRequired
        } else {
            AcmeError::Unknown
        }
    }
}

} // verus!
