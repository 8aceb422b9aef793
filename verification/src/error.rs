//! Error values surfaced by the protocol engine and the codec.

use vstd::prelude::*;

verus! {

/// The error taxonomy of the connection driver.
#[derive(Copy, Clone, Debug, PartialEq, Eq, Structural)]
pub enum ErrorKind {
    /// Transport failure or ACK timeout.
    ConnectionError,
    /// REGISTER rejected as unauthorized.
    Unauthorized,
    /// REGISTER rejected for an unsupported protocol version.
    UnsupportedProtocolVersion,
    /// REGISTER rejected with an internal server error.
    ArrowServerError,
    /// Malformed frames, unexpected control messages, protocol violations.
    Other,
}

/// A fatal connection error: a kind plus a human-readable message.
#[derive(Debug)]
pub struct ArrowError {
    pub kind: ErrorKind,
    pub msg: String,
}

impl ArrowError {
    /// Build a `ConnectionError`.
    pub fn connection_error(msg: &str) -> (r: ArrowError)
        ensures
            r.kind == ErrorKind::ConnectionError,
            r.msg@ == msg@,
    {
        ArrowError { kind: ErrorKind::ConnectionError, msg: msg.to_owned() }
    }

    /// Build an `Unauthorized` error.
    pub fn unauthorized(msg: &str) -> (r: ArrowError)
        ensures
            r.kind == ErrorKind::Unauthorized,
            r.msg@ == msg@,
    {
        ArrowError { kind: ErrorKind::Unauthorized, msg: msg.to_owned() }
    }

    /// Build an `UnsupportedProtocolVersion` error.
    pub fn unsupported_protocol_version(msg: &str) -> (r: ArrowError)
        ensures
            r.kind == ErrorKind::UnsupportedProtocolVersion,
            r.msg@ == msg@,
    {
        ArrowError { kind: ErrorKind::UnsupportedProtocolVersion, msg: msg.to_owned() }
    }

    /// Build an `ArrowServerError`.
    pub fn arrow_server_error(msg: &str) -> (r: ArrowError)
        ensures
            r.kind == ErrorKind::ArrowServerError,
            r.msg@ == msg@,
    {
        ArrowError { kind: ErrorKind::ArrowServerError, msg: msg.to_owned() }
    }

    /// Build an `Other` error.
    pub fn other(msg: &str) -> (r: ArrowError)
        ensures
            r.kind == ErrorKind::Other,
            r.msg@ == msg@,
    {
        ArrowError { kind: ErrorKind::Other, msg: msg.to_owned() }
    }
}

/// A codec-level decoding failure; the engine surfaces it as `Other`.
#[derive(Debug)]
pub struct DecodeError {
    pub msg: String,
}

impl DecodeError {
    /// Build a `DecodeError` with a given message.
    pub fn new(msg: &str) -> (r: DecodeError)
        ensures
            r.msg@ == msg@,
    {
        DecodeError { msg: msg.to_owned() }
    }

    /// Turn a decoding failure into the engine-level error taxonomy.
    pub fn into_arrow_error(self) -> (r: ArrowError)
        ensures
            r.kind == ErrorKind::Other,
            r.msg@ == self.msg@,
    {
        ArrowError { kind: ErrorKind::Other, msg: self.msg }
    }
}

} // verus!
