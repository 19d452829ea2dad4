//! The library's error type.
use vstd::prelude::*;

use crate::text::concat_str;

verus! {

/// Errors surfaced by the core library.
#[derive(Debug)]
pub enum CoreError {
    /// Encryption, decryption or encoding failed.
    Crypto(String),
    /// The operating system's credential store refused an operation.
    Keyring(String),
    /// A lookup found nothing.
    AccountNotFound(String),
    /// A value could not be serialised or parsed.
    Serialization(String),
    /// A file could not be read or written.
    Io(String),
    /// A network request failed.
    Http(String),
}

/// Which variant a [`CoreError`] is.
#[derive(Clone, Copy, Debug, PartialEq, Eq, Structural)]
pub enum ErrorKind {
    Crypto,
    Keyring,
    AccountNotFound,
    Serialization,
    Io,
    Http,
}

/// An error as the contracts see it: its variant and its detail text.
pub type ErrorView = (ErrorKind, Seq<char>);

impl View for CoreError {
    type V = ErrorView;

    open spec fn view(&self) -> ErrorView {
        match self {
            CoreError::Crypto(m) => (ErrorKind::Crypto, m@),
            CoreError::Keyring(m) => (ErrorKind::Keyring, m@),
            CoreError::AccountNotFound(m) => (ErrorKind::AccountNotFound, m@),
            CoreError::Serialization(m) => (ErrorKind::Serialization, m@),
            CoreError::Io(m) => (ErrorKind::Io, m@),
            CoreError::Http(m) => (ErrorKind::Http, m@),
        }
    }
}

/// The words that open the message of each kind of error.
pub open spec fn kind_prefix(kind: ErrorKind) -> Seq<char> {
    match kind {
        ErrorKind::Crypto => "Crypto error: "@,
        ErrorKind::Keyring => "Keyring error: "@,
        ErrorKind::AccountNotFound => "Account not found: "@,
        ErrorKind::Serialization => "Serialization error: "@,
        ErrorKind::Io => "IO error: "@,
        ErrorKind::Http => "HTTP error: "@,
    }
}

/// The message shown to the user for an error.
pub open spec fn spec_message(e: ErrorView) -> Seq<char> {
    kind_prefix(e.0) + e.1
}

/// A text result as the contracts see it.
pub open spec fn text_result(r: Result<String, CoreError>) -> Result<Seq<char>, ErrorView> {
    match r {
        Ok(s) => Ok(s@),
        Err(e) => Err(e@),
    }
}

/// A byte-buffer result as the contracts see it.
pub open spec fn bytes_result(r: Result<Vec<u8>, CoreError>) -> Result<Seq<u8>, ErrorView> {
    match r {
        Ok(v) => Ok(v@),
        Err(e) => Err(e@),
    }
}

/// A unit result as the contracts see it.
pub open spec fn unit_result(r: Result<(), CoreError>) -> Result<(), ErrorView> {
    match r {
        Ok(()) => Ok(()),
        Err(e) => Err(e@),
    }
}

impl CoreError {
    /// Which variant this error is.
    pub fn kind(&self) -> (k: ErrorKind)
        ensures
            k == self@.0,
    {
        match self {
            CoreError::Crypto(_) => ErrorKind::Crypto,
            CoreError::Keyring(_) => ErrorKind::Keyring,
            CoreError::AccountNotFound(_) => ErrorKind::AccountNotFound,
            CoreError::Serialization(_) => ErrorKind::Serialization,
            CoreError::Io(_) => ErrorKind::Io,
            CoreError::Http(_) => ErrorKind::Http,
        }
    }

    /// The message shown to the user, e.g. `"Keyring error: no matching entry"`.
    pub fn message(&self) -> (r: String)
        ensures
            r@ == spec_message(self@),
    {
        match self {
            CoreError::Crypto(m) => concat_str("Crypto error: ", m.as_str()),
            CoreError::Keyring(m) => concat_str("Keyring error: ", m.as_str()),
            CoreError::AccountNotFound(m) => concat_str("Account not found: ", m.as_str()),
            CoreError::Serialization(m) => concat_str("Serialization error: ", m.as_str()),
            CoreError::Io(m) => concat_str("IO error: ", m.as_str()),
            CoreError::Http(m) => concat_str("HTTP error: ", m.as_str()),
        }
    }
}

} // verus!
