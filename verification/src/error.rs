//! The outcomes that the adapter hands to its callers.

use vstd::prelude::*;

verus! {

/// A hard fault of the socket adapter. None of these is cured by retrying.
#[derive(Clone, Copy, Debug, PartialEq, Eq, Structural)]
pub enum AdapterError {
    /// The remote endpoint is not an IPv4 endpoint.
    UnsupportedAddressFamily,
    /// Every socket slot of the interface is taken.
    NoSocketSlot,
    /// The handle does not own a slot: it was closed, or never issued.
    HandleClosed,
    /// The transport reported more bytes than the buffer holds.
    TransferOverrun,
}

/// The result of a non-blocking operation that did not succeed, with `E` the
/// hard faults of the component that answers.
#[derive(Debug, PartialEq, Eq)]
pub enum NbError<E> {
    /// Nothing could be done at this instant; the same call may be repeated.
    WouldBlock,
    /// The operation failed for good.
    Other(E),
}

/// Why a secure handshake ended without a session. None is retried.
#[derive(Clone, Copy, Debug, PartialEq, Eq, Structural)]
pub enum HandshakeFailure {
    /// The peer's certificate did not validate.
    CertificateRejected,
    /// The peer speaks no protocol version that the policy admits.
    VersionMismatch,
    /// The peer turned the handshake down.
    PeerRejected,
}

/// A hard fault of a secure session.
#[derive(Clone, Copy, Debug, PartialEq, Eq, Structural)]
pub enum SessionError {
    /// The certificate bundle has no root CA.
    EmptyRootCa,
    /// Of client certificate and client key only one is present.
    IncompleteClientIdentity,
    /// The handshake failed.
    Handshake(HandshakeFailure),
    /// The session carries no data: its handshake has not succeeded.
    NotEstablished,
    /// The transport reported more bytes than the buffer holds.
    TransferOverrun,
}

/// What the polled transport reports when an operation on it fails.
#[derive(Clone, Copy, Debug, PartialEq, Eq, Structural)]
pub enum TransportFault {
    /// The transport could make no progress right now.
    Busy,
    /// The transport gave the operation up.
    Failed,
}

} // verus!
