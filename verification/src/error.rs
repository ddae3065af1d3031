//! The failures the signer reports.

use vstd::prelude::*;
use crate::text::{join2, owned};

verus! {

/// Everything that can go wrong while keys are managed or a request is served.
#[derive(Debug)]
pub enum SignerError {
    KeyNotFound(String),
    InvalidKeyFormat(String),
    EncryptionError(String),
    DecryptionError(String),
    PermissionDenied(String),
    RateLimited(String),
    InvalidPassword,
    NoActiveKey,
    KeyAlreadyExists(String),
    ConfigError(String),
    IoError(String),
    SerializationError(String),
    NostrError(String),
    TransportError(String),
    NoRelayConnected,
    UserRejected,
    Timeout,
    NotAuthorized(String),
    InvalidRequest(String),
}

pub type Result<T> = std::result::Result<T, SignerError>;

impl SignerError {
    /// The sentence that describes the failure.
    pub open spec fn text(self) -> Seq<char> {
        match self {
            SignerError::KeyNotFound(s) => "Key not found: "@ + s@,
            SignerError::InvalidKeyFormat(s) => "Invalid key format: "@ + s@,
            SignerError::EncryptionError(s) => "Encryption error: "@ + s@,
            SignerError::DecryptionError(s) => "Decryption error: "@ + s@,
            SignerError::PermissionDenied(s) => "Permission denied: "@ + s@,
            SignerError::RateLimited(s) => "Rate limit exceeded: "@ + s@,
            SignerError::InvalidPassword => "Invalid password"@,
            SignerError::NoActiveKey => "No active key"@,
            SignerError::KeyAlreadyExists(s) => "Key already exists: "@ + s@,
            SignerError::ConfigError(s) => "Configuration error: "@ + s@,
            SignerError::IoError(s) => "IO error: "@ + s@,
            SignerError::SerializationError(s) => "Serialization error: "@ + s@,
            SignerError::NostrError(s) => "Nostr error: "@ + s@,
            SignerError::TransportError(s) => "Transport error: "@ + s@,
            SignerError::NoRelayConnected => "No relay connected"@,
            SignerError::UserRejected => "User rejected the request"@,
            SignerError::Timeout => "Request timeout"@,
            SignerError::NotAuthorized(s) => "Application not authorized: "@ + s@,
            SignerError::InvalidRequest(s) => "Invalid request: "@ + s@,
        }
    }

    /// Renders the failure as text.
    pub fn message(&self) -> (m: String)
        ensures
            m@ == self.text(),
    {
        match self {
            SignerError::KeyNotFound(s) => join2("Key not found: ", s.as_str()),
            SignerError::InvalidKeyFormat(s) => join2("Invalid key format: ", s.as_str()),
            SignerError::EncryptionError(s) => join2("Encryption error: ", s.as_str()),
            SignerError::DecryptionError(s) => join2("Decryption error: ", s.as_str()),
            SignerError::PermissionDenied(s) => join2("Permission denied: ", s.as_str()),
            SignerError::RateLimited(s) => join2("Rate limit exceeded: ", s.as_str()),
            SignerError::InvalidPassword => owned("Invalid password"),
            SignerError::NoActiveKey => owned("No active key"),
            SignerError::KeyAlreadyExists(s) => join2("Key already exists: ", s.as_str()),
            SignerError::ConfigError(s) => join2("Configuration error: ", s.as_str()),
            SignerError::IoError(s) => join2("IO error: ", s.as_str()),
            SignerError::SerializationError(s) => join2("Serialization error: ", s.as_str()),
            SignerError::NostrError(s) => join2("Nostr error: ", s.as_str()),
            SignerError::TransportError(s) => join2("Transport error: ", s.as_str()),
            SignerError::NoRelayConnected => owned("No relay connected"),
            SignerError::UserRejected => owned("User rejected the request"),
            SignerError::Timeout => owned("Request timeout"),
            SignerError::NotAuthorized(s) => join2("Application not authorized: ", s.as_str()),
            SignerError::InvalidRequest(s) => join2("Invalid request: ", s.as_str()),
        }
    }
}

} // verus!
