//! The boundary between the library and whoever performs its input and
//! output.
//!
//! The library asks with a [`Request`] and is told what came of it with a
//! [`Response`]. A transport is known here by a handle: a number that the
//! caller gives to a connection when it opens one.

use crate::datatools::{FileSystemInfo, MountInfoView};
use vstd::prelude::*;

verus! {

/// What a failed read or write on a transport was, as far as the library
/// cares.
#[derive(Clone, Copy, Debug, PartialEq, Eq)]
pub enum TransportErrorKind {
    /// The connection is gone: the peer has reset it, or the stream has
    /// ended and nothing more can be read from it.
    ConnectionReset,
    /// Anything else.
    Other,
}

/// What a failed read or write on a transport reports, as far as the
/// library tells failures apart.
#[derive(Clone, Copy, Debug, PartialEq, Eq)]
pub enum IoFault {
    /// The peer has reset the connection.
    ConnectionReset,
    /// The stream has ended: the peer has closed the connection, or the
    /// transport has been shut down.
    UnexpectedEof,
    /// Anything else.
    Other,
}

/// What a fault means for the connection: it is gone where the peer has
/// reset it and where the stream has ended.
pub open spec fn fault_kind(fault: IoFault) -> TransportErrorKind {
    match fault {
        IoFault::Other => TransportErrorKind::Other,
        _ => TransportErrorKind::ConnectionReset,
    }
}

/// Classifies a failed read or write.
pub fn transport_error_kind(fault: IoFault) -> (kind: TransportErrorKind)
    ensures
        kind == fault_kind(fault),
{
    match fault {
        IoFault::ConnectionReset => TransportErrorKind::ConnectionReset,
        IoFault::UnexpectedEof => TransportErrorKind::ConnectionReset,
        IoFault::Other => TransportErrorKind::Other,
    }
}

/// The broker's answer to a connection request.
#[derive(Clone, Copy, Debug, PartialEq, Eq)]
pub enum ConnectReturnCode {
    ConnectionAccepted,
    UnacceptableProtocolVersion,
    IdentifierRejected,
    ServiceUnavailable,
    BadUserNameOrPassword,
    NotAuthorized,
    Reserved(u8),
}

/// Why a handshake did not lead to a connection.
#[derive(Clone, Copy, Debug, PartialEq, Eq)]
pub enum ConnectError {
    /// The transport could not be opened, or the request not written to it.
    Unreachable,
    /// The connection request could not be encoded.
    ProtocolEncodeFailure,
    /// No acknowledgement could be read and decoded in time.
    ProtocolDecodeFailure,
    /// The broker answered with a return code other than "accepted".
    Rejected(ConnectReturnCode),
}

/// Why the agent cannot start.
#[derive(Clone, Copy, Debug, PartialEq, Eq)]
pub enum Fatal {
    /// A configured topic is not one that a message can be published to.
    InvalidTopic,
    /// The first connection to the broker failed.
    Connect(ConnectError),
}

/// A frame to be written to a transport.
#[derive(Debug, PartialEq, Eq)]
pub struct Outbound {
    pub handle: u64,
    pub frame: Vec<u8>,
}

/// The mathematical content of an [`Outbound`].
pub struct OutboundView {
    pub handle: u64,
    pub frame: Seq<u8>,
}

impl View for Outbound {
    type V = OutboundView;

    open spec fn view(&self) -> OutboundView {
        OutboundView { handle: self.handle, frame: self.frame@ }
    }
}

/// What the library asks its caller to do next.
#[derive(Debug, PartialEq, Eq)]
pub enum Request {
    /// Open a transport to `address`. Answered by [`Response::Opened`].
    Open { address: String },
    /// Shut the transport down and let go of it. Answered by
    /// [`Response::Closed`].
    Close { handle: u64 },
    /// Write the whole frame to the transport. Answered by
    /// [`Response::Written`].
    Write(Outbound),
    /// Read one connection acknowledgement from the transport, waiting no
    /// longer than `timeout_ms`. Answered by [`Response::Acknowledged`].
    ReadAck { handle: u64, timeout_ms: u64 },
    /// Start a keep-alive reader on the transport. Answered by
    /// [`Response::ReaderSpawned`].
    SpawnReader { handle: u64 },
    /// Read the value at position `index` of `file`. Answered by
    /// [`Response::Value`].
    ReadValue { file: String, index: usize },
    /// List the mounted file systems. Answered by [`Response::Mounts`].
    ListMounts,
    /// Pause for `millis` milliseconds. Answered by [`Response::Woke`].
    Sleep { millis: u64 },
    /// Give up: the agent cannot start. Not answered.
    Abort { reason: Fatal },
}

/// The mathematical content of a [`Request`].
pub enum RequestView {
    Open { address: Seq<char> },
    Close { handle: u64 },
    Write(OutboundView),
    ReadAck { handle: u64, timeout_ms: u64 },
    SpawnReader { handle: u64 },
    ReadValue { file: Seq<char>, index: usize },
    ListMounts,
    Sleep { millis: u64 },
    Abort { reason: Fatal },
}

impl View for Request {
    type V = RequestView;

    open spec fn view(&self) -> RequestView {
        match *self {
            Request::Open { address } => RequestView::Open { address: address@ },
            Request::Close { handle } => RequestView::Close { handle },
            Request::Write(outbound) => RequestView::Write(outbound@),
            Request::ReadAck { handle, timeout_ms } => RequestView::ReadAck { handle, timeout_ms },
            Request::SpawnReader { handle } => RequestView::SpawnReader { handle },
            Request::ReadValue { file, index } => RequestView::ReadValue { file: file@, index },
            Request::ListMounts => RequestView::ListMounts,
            Request::Sleep { millis } => RequestView::Sleep { millis },
            Request::Abort { reason } => RequestView::Abort { reason },
        }
    }
}

/// What came of the last [`Request`]. Where the library waits for one kind
/// of response and is given another, it takes what it asked for to have
/// failed.
#[derive(Debug, PartialEq, Eq)]
pub enum Response {
    /// The transport was opened under the given handle, or could not be.
    Opened(Option<u64>),
    /// The transport is closed.
    Closed,
    /// The frame was written, or the write failed.
    Written(Result<(), TransportErrorKind>),
    /// The broker acknowledged with the given return code, or no
    /// acknowledgement could be read and decoded in time.
    Acknowledged(Option<ConnectReturnCode>),
    /// The keep-alive reader runs.
    ReaderSpawned,
    /// The value read, as text, or `None` where there is none to be had.
    Value(Option<String>),
    /// The table of mounted file systems, or `None` where it could not be
    /// listed.
    Mounts(Option<FileSystemInfo>),
    /// The pause is over. Names the transports whose keep-alive readers
    /// have reported the loss of their connection meanwhile.
    Woke(Vec<u64>),
}

/// The mathematical content of a [`Response`].
pub enum ResponseView {
    Opened(Option<u64>),
    Closed,
    Written(Result<(), TransportErrorKind>),
    Acknowledged(Option<ConnectReturnCode>),
    ReaderSpawned,
    Value(Option<Seq<char>>),
    Mounts(Option<Seq<MountInfoView>>),
    Woke(Seq<u64>),
}

impl View for Response {
    type V = ResponseView;

    open spec fn view(&self) -> ResponseView {
        match *self {
            Response::Opened(handle) => ResponseView::Opened(handle),
            Response::Closed => ResponseView::Closed,
            Response::Written(result) => ResponseView::Written(result),
            Response::Acknowledged(code) => ResponseView::Acknowledged(code),
            Response::ReaderSpawned => ResponseView::ReaderSpawned,
            Response::Value(text) => ResponseView::Value(
                match text {
                    Some(text) => Some(text@),
                    None => None,
                },
            ),
            Response::Mounts(table) => ResponseView::Mounts(
                match table {
                    Some(table) => Some(table@),
                    None => None,
                },
            ),
            Response::Woke(lost) => ResponseView::Woke(lost@),
        }
    }
}

} // verus!
