//! The errors of the library.

use vstd::prelude::*;

verus! {

/// Declares `std::io::Error`, the error of a failed transport. It is
/// carried along and never looked into.
#[verifier::external_type_specification]
#[verifier::external_body]
pub struct ExIoError(std::io::Error);

/// A transport failure that the library finds itself, without a failed
/// call of the operating system behind it.
#[derive(Clone, Copy, Debug, PartialEq, Eq, Structural)]
pub enum TransportFault {
    /// An operation on a channel that is closed.
    NotConnected,
    /// A host that is no valid DNS name.
    InvalidHost,
    /// A read that gave no bytes: the peer has closed the connection.
    EndOfInput,
}

/// The transport error of a fault.
///
/// Trusted: calls `std::io::Error::from` with the `std::io::ErrorKind` that
/// stands for the fault: `NotConnected`, `InvalidInput` or `UnexpectedEof`.
/// Nothing is stated of the error.
#[verifier::external_body]
pub(crate) fn io_error(fault: TransportFault) -> (error: std::io::Error) {
    std::io::Error::from(
        match fault {
            TransportFault::NotConnected => std::io::ErrorKind::NotConnected,
            TransportFault::InvalidHost => std::io::ErrorKind::InvalidInput,
            TransportFault::EndOfInput => std::io::ErrorKind::UnexpectedEof,
        },
    )
}

/// Why a frame could not be decoded.
#[derive(Debug)]
pub enum DecodeError {
    /// The frame is no JSON text; the parser's error says where.
    Syntax(serde_json::Error),
    /// The frame is a JSON text of another shape than the one expected.
    Shape,
}

/// What can go wrong on a channel.
#[derive(Debug)]
pub enum ErrorKind {
    /// The transport failed: the connection was refused, lost or closed.
    Disconnected(std::io::Error),
    /// A frame could not be decoded, or a command could not be encoded.
    JsonError(DecodeError),
    /// The reply is well-formed, but not the kind of reply that the call
    /// expects.
    InvalidResponse,
    /// The server rejected the request, with its error code and description.
    ApiError(String, String),
    InternalError,
    /// No frame is available yet on a non-blocking channel. This is no
    /// failure: the caller tries again later.
    WouldBlock,
}

pub type Result<T> = std::result::Result<T, ErrorKind>;

impl ErrorKind {
    /// Whether the condition ends the channel it arose on. Only `WouldBlock`
    /// does not.
    pub open spec fn is_fatal(self) -> bool {
        !(self is WouldBlock)
    }

    /// Whether the condition ends the channel it arose on.
    pub fn fatal(&self) -> (fatal: bool)
        ensures
            fatal == self.is_fatal(),
    {
        match self {
            ErrorKind::WouldBlock => false,
            _ => true,
        }
    }
}

} // verus!
