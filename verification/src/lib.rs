//! A small in-memory key/value service: keys and "hashes" are opaque strings,
//! and clients talk to it over a stream of flat JSON objects.
//!
//! # Wire protocol
//!
//! Every message is one JSON object, framed by its closing brace.
//!
//! Store request and its answer:
//!
//! ```text
//! {"request_type": "store", "key": "some_key", "hash": "some_hash"}
//! {"response_status": "success"}
//! ```
//!
//! Load request and its two possible answers:
//!
//! ```text
//! {"request_type": "load", "key": "some_key"}
//! {"response_status": "success", "requested_key": "some_key", "requested_hash": "some_hash"}
//! {"response_status": "key not found"}
//! ```
//!
//! Anything else is answered with `{"response_status": "error"}` and the
//! connection is closed.
//!
//! This crate holds the rules of the service: the store, the codec, the
//! per-connection state machine, the listener's decisions and the text of the
//! activity log. Sockets, threads and the terminal belong to the program that
//! drives it.
use vstd::prelude::*;

pub mod run;
pub mod tools;

verus! {

/// Opaque to the verifier: an I/O failure reported by the operating system.
#[verifier::external_type_specification]
#[verifier::external_body]
pub struct ExIoError(std::io::Error);

/// Opaque to the verifier: the reason `serde_json` gives for rejecting a text.
#[verifier::external_type_specification]
#[verifier::external_body]
pub struct ExJsonError(serde_json::Error);

/// What can go wrong while serving.
#[derive(Debug)]
pub enum ErrorType {
    /// The peer closed the stream, or went quiet, before sending a single byte
    /// of a request.
    BadReading,
    /// Reading from or writing to the stream failed.
    IoError(std::io::Error),
    /// The bytes received are not JSON, or not a request this service knows.
    JsonErr(serde_json::Error),
    /// The listening address could not be bound.
    BadConnection,
}

/// The category of an error: what is left of it once the cause reported by
/// the operating system or by `serde_json` is put aside.
#[derive(Clone, Copy, Debug, PartialEq, Eq, Structural)]
pub enum ErrorKind {
    BadReading,
    IoError,
    JsonErr,
    BadConnection,
}

impl View for ErrorType {
    type V = ErrorKind;

    open spec fn view(&self) -> ErrorKind {
        match *self {
            ErrorType::BadReading => ErrorKind::BadReading,
            ErrorType::IoError(_) => ErrorKind::IoError,
            ErrorType::JsonErr(_) => ErrorKind::JsonErr,
            ErrorType::BadConnection => ErrorKind::BadConnection,
        }
    }
}

impl ErrorType {
    /// The category of this error.
    pub fn kind(&self) -> (kind: ErrorKind)
        ensures
            kind == self@,
    {
        match self {
            ErrorType::BadReading => ErrorKind::BadReading,
            ErrorType::IoError(_) => ErrorKind::IoError,
            ErrorType::JsonErr(_) => ErrorKind::JsonErr,
            ErrorType::BadConnection => ErrorKind::BadConnection,
        }
    }
}

impl From<std::io::Error> for ErrorType {
    fn from(err: std::io::Error) -> (e: Self)
        ensures
            e == ErrorType::IoError(err),
    {
        ErrorType::IoError(err)
    }
}

impl vstd::std_specs::convert::FromSpecImpl<std::io::Error> for ErrorType {
    open spec fn obeys_from_spec() -> bool {
        true
    }

    open spec fn from_spec(err: std::io::Error) -> Self {
        ErrorType::IoError(err)
    }
}

impl From<serde_json::Error> for ErrorType {
    fn from(err: serde_json::Error) -> (e: Self)
        ensures
            e == ErrorType::JsonErr(err),
    {
        ErrorType::JsonErr(err)
    }
}

impl vstd::std_specs::convert::FromSpecImpl<serde_json::Error> for ErrorType {
    open spec fn obeys_from_spec() -> bool {
        true
    }

    open spec fn from_spec(err: serde_json::Error) -> Self {
        ErrorType::JsonErr(err)
    }
}

} // verus!
