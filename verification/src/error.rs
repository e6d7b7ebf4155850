//! The crate's error type; it exposes no protocol internals.
use std::io::Error as IoError;
use serde_json::Error as JsonError;
use vstd::prelude::*;

verus! {

/// `std::io::Error`, carried through opaquely.
#[verifier::external_type_specification]
#[verifier::external_body]
pub struct ExIoError(IoError);

/// `serde_json::Error`, carried through opaquely.
#[verifier::external_type_specification]
#[verifier::external_body]
pub struct ExSerdeJsonError(JsonError);

/// Unified error type.
#[derive(Debug)]
pub enum Error {
    /// Navigation or page-load error.
    Navigation(String),
    /// Element not found.
    ElementNotFound(String),
    /// Element was found but is no longer attached to the DOM.
    ElementDetached(String),
    /// JavaScript evaluation error.
    JavaScript(String),
    /// Timeout waiting for an operation.
    Timeout(String),
    /// The underlying browser connection was lost or the browser exited.
    Connection(String),
    /// Browser launch failed.
    Launch(String),
    /// The page or frame has been closed or destroyed.
    PageClosed(String),
    /// Operation is not valid in the current state.
    InvalidState(String),
    /// Network-level request or interception failure.
    NetworkError(String),
    /// Invalid input parameters.
    InputError(String),
    /// I/O error.
    Io(IoError),
    /// Serialization / deserialization error.
    Serde(JsonError),
    /// A protocol-level error message.
    Cdp(String),
    /// Catch-all for other errors.
    Other(String),
}

/// The text of an I/O error, as its `Display` writes it.
#[verifier::external_body]
fn io_error_text(e: &IoError) -> String {
    e.to_string()
}

/// The text of a JSON error, as its `Display` writes it.
#[verifier::external_body]
fn serde_error_text(e: &JsonError) -> String {
    e.to_string()
}

/// The prefix that the message of each kind of error starts with.
pub open spec fn message_prefix(e: &Error) -> Seq<char> {
    match e {
        Error::Navigation(_) => "navigation error: "@,
        Error::ElementNotFound(_) => "element not found: "@,
        Error::ElementDetached(_) => "element detached: "@,
        Error::JavaScript(_) => "javascript error: "@,
        Error::Timeout(_) => "timeout: "@,
        Error::Connection(_) => "connection error: "@,
        Error::Launch(_) => "launch error: "@,
        Error::PageClosed(_) => "page closed: "@,
        Error::InvalidState(_) => "invalid state: "@,
        Error::NetworkError(_) => "network error: "@,
        Error::InputError(_) => "input error: "@,
        Error::Io(_) => "io error: "@,
        Error::Serde(_) => "serde error: "@,
        Error::Cdp(_) => "cdp error: "@,
        Error::Other(_) => ""@,
    }
}

/// The detail text that a kind of error carries, for the kinds that carry text.
pub open spec fn message_detail(e: &Error) -> Option<Seq<char>> {
    match e {
        Error::Navigation(s) => Some(s@),
        Error::ElementNotFound(s) => Some(s@),
        Error::ElementDetached(s) => Some(s@),
        Error::JavaScript(s) => Some(s@),
        Error::Timeout(s) => Some(s@),
        Error::Connection(s) => Some(s@),
        Error::Launch(s) => Some(s@),
        Error::PageClosed(s) => Some(s@),
        Error::InvalidState(s) => Some(s@),
        Error::NetworkError(s) => Some(s@),
        Error::InputError(s) => Some(s@),
        Error::Cdp(s) => Some(s@),
        Error::Other(s) => Some(s@),
        Error::Io(_) => None,
        Error::Serde(_) => None,
    }
}

/// `e` is a catch-all error with text `msg`.
pub open spec fn other_error(e: Error, msg: Seq<char>) -> bool {
    e is Other && message_detail(&e) == Some(msg)
}

/// `e` is an invalid-state error with detail `msg`.
pub open spec fn invalid_state(e: Error, msg: Seq<char>) -> bool {
    e is InvalidState && message_detail(&e) == Some(msg)
}

impl Error {
    /// The error's message: its kind's prefix, then its detail.
    pub fn message(&self) -> (r: String)
        ensures
            r@.len() >= message_prefix(self).len(),
            r@.subrange(0, message_prefix(self).len() as int) == message_prefix(self),
            message_detail(self) is Some ==> r@ == message_prefix(self) + message_detail(
                self,
            )->0,
    {
        let (prefix, detail): (&str, String) = match self {
            Error::Navigation(s) => ("navigation error: ", s.clone()),
            Error::ElementNotFound(s) => ("element not found: ", s.clone()),
            Error::ElementDetached(s) => ("element detached: ", s.clone()),
            Error::JavaScript(s) => ("javascript error: ", s.clone()),
            Error::Timeout(s) => ("timeout: ", s.clone()),
            Error::Connection(s) => ("connection error: ", s.clone()),
            Error::Launch(s) => ("launch error: ", s.clone()),
            Error::PageClosed(s) => ("page closed: ", s.clone()),
            Error::InvalidState(s) => ("invalid state: ", s.clone()),
            Error::NetworkError(s) => ("network error: ", s.clone()),
            Error::InputError(s) => ("input error: ", s.clone()),
            Error::Io(e) => ("io error: ", io_error_text(e)),
            Error::Serde(e) => ("serde error: ", serde_error_text(e)),
            Error::Cdp(s) => ("cdp error: ", s.clone()),
            Error::Other(s) => ("", s.clone()),
        };
        let r = prefix.to_owned().concat(detail.as_str());
        assert(r@.subrange(0, prefix@.len() as int) =~= prefix@);
        r
    }
}

/// Whether a locator retries after this error: everything but timeouts,
/// lost connections, failed launches, closed pages, invalid states, I/O and
/// JSON errors.
pub open spec fn retryable(e: &Error) -> bool {
    !(e is Timeout || e is Connection || e is Launch || e is PageClosed || e is InvalidState
        || e is Io || e is Serde)
}

/// Whether an error should trigger a retry from a locator's outer loop.
pub fn is_retryable(err: &Error) -> (r: bool)
    ensures
        r == retryable(err),
{
    match err {
        Error::Timeout(_) | Error::Connection(_) | Error::Launch(_) | Error::PageClosed(_)
        | Error::InvalidState(_) | Error::Io(_) | Error::Serde(_) => false,
        _ => true,
    }
}

} // verus!
