//! Plain-value models of the errors a QUIC connection and its streams report.
//!
//! The download logic only ever looks at which variant an error is; the
//! payloads are kept so that the cause of a failure is not lost.

use vstd::prelude::*;

verus! {

/// A violation of the QUIC specification reported by the transport.
#[derive(Debug, Clone, PartialEq, Eq)]
pub struct TransportError {
    /// The QUIC transport error code.
    pub code: u64,
    /// Human-readable explanation of the reason.
    pub reason: String,
}

/// The peer's QUIC stack closed the connection.
#[derive(Debug, Clone, PartialEq, Eq)]
pub struct ConnectionClose {
    /// Class of error as encoded in the specification.
    pub error_code: u64,
    /// Human-readable reason for the close.
    pub reason: Vec<u8>,
}

/// The peer's application closed the connection.
#[derive(Debug, Clone, PartialEq, Eq)]
pub struct ApplicationClose {
    /// Application-specific reason code.
    pub error_code: u64,
    /// Human-readable reason for the close.
    pub reason: Vec<u8>,
}

/// Reasons why a connection might be lost.
#[derive(Debug, Clone, PartialEq, Eq)]
pub enum ConnectionError {
    /// The peer doesn't implement any supported version.
    VersionMismatch,
    /// The peer violated the QUIC specification as understood by this implementation.
    TransportError(TransportError),
    /// The peer's QUIC stack aborted the connection automatically.
    ConnectionClosed(ConnectionClose),
    /// The peer closed the connection.
    ApplicationClosed(ApplicationClose),
    /// The peer is unable to continue processing this connection, usually due to having restarted.
    Reset,
    /// Communication with the peer has lapsed for longer than the negotiated idle timeout.
    TimedOut,
    /// The local application closed the connection.
    LocallyClosed,
}

/// Errors that arise from reading from a stream.
#[derive(Debug, Clone, PartialEq, Eq)]
pub enum ReadError {
    /// The peer abandoned transmitting data on this stream; carries the error code.
    Reset(u64),
    /// The connection was lost.
    ConnectionLost(ConnectionError),
    /// The stream has already been stopped, finished, or reset.
    UnknownStream,
    /// Attempted an ordered read following an unordered read.
    IllegalOrderedRead,
    /// This was a 0-RTT stream and the server rejected it.
    ZeroRttRejected,
}

/// Errors that arise from writing to a stream.
#[derive(Debug, Clone, PartialEq, Eq)]
pub enum WriteError {
    /// The peer is no longer accepting data on this stream; carries the error code.
    Stopped(u64),
    /// The connection was lost.
    ConnectionLost(ConnectionError),
    /// The stream has already been finished or reset.
    UnknownStream,
    /// This was a 0-RTT stream and the server rejected it.
    ZeroRttRejected,
}

/// A failed input/output operation on the local machine.
#[derive(Debug, Clone, PartialEq, Eq)]
pub struct IoError {
    /// Description of what went wrong.
    pub message: String,
}

} // verus!
