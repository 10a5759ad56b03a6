//! The connection manager: the handshake with the broker, the publish path
//! and the keep-alive reader's decisions.
//!
//! A manager holds the broker's endpoint and at most one transport. It
//! never touches the transport itself: a handshake is a short exchange of
//! [`Request`]s and [`Response`]s, a publication is a frame handed out for
//! writing, and the reader is told what to do with each inbound frame.

use crate::config::Config;
use crate::transport::{
    fault_kind, ConnectError, ConnectReturnCode, IoFault, Outbound, OutboundView, Request,
    RequestView, Response, ResponseView, TransportErrorKind,
};
use crate::wire::{
    connect_frame, encode_connect, encode_pingresp, encode_publish, frame_fits,
    lemma_ascii_string_bytes, pingresp_frame, publish_frame, topic_valid, utf8_len, QoS,
    MAX_REMAINING_LENGTH, MAX_STRING_LENGTH,
};
use vstd::prelude::*;
use vstd::string::{to_string_from_display_ensures, StrSliceExecFns};
use vstd::utf8::encode_utf8;

verus! {

/// How long a handshake waits for the broker's acknowledgement, in
/// milliseconds.
pub const HANDSHAKE_TIMEOUT_MS: u64 = 5000;

/// The name of the protocol in a connection request.
pub open spec fn protocol_name() -> Seq<char> {
    "MQTT"@
}

/// The identifier under which this client connects.
pub open spec fn client_identifier() -> Seq<char> {
    "lsm_test_client"@
}

/// Whether the manager holds a transport, and which.
#[derive(Clone, Copy, Debug, PartialEq, Eq)]
pub enum ConnectionState {
    Disconnected,
    Connected { handle: u64 },
}

/// Why a publication was not sent.
#[derive(Clone, Copy, Debug, PartialEq, Eq)]
pub enum PublishError {
    /// The manager holds no transport. Nothing was attempted.
    NotConnected,
    /// The transport did not take the frame.
    Transport(TransportErrorKind),
}

impl PublishError {
    /// An error that shows the connection to be gone: there is none, or the
    /// peer has reset it.
    pub open spec fn connection_lost(self) -> bool {
        match self {
            PublishError::NotConnected => true,
            PublishError::Transport(TransportErrorKind::ConnectionReset) => true,
            PublishError::Transport(TransportErrorKind::Other) => false,
        }
    }

    /// Whether the error shows the connection to be gone.
    pub fn is_connection_lost(&self) -> (lost: bool)
        ensures
            lost == self.connection_lost(),
    {
        match self {
            PublishError::NotConnected => true,
            PublishError::Transport(TransportErrorKind::ConnectionReset) => true,
            PublishError::Transport(TransportErrorKind::Other) => false,
        }
    }
}

/// What a write of a published frame came to.
pub open spec fn publish_outcome(written: Result<(), TransportErrorKind>) -> Result<
    (),
    PublishError,
> {
    match written {
        Ok(()) => Ok(()),
        Err(kind) => Err(PublishError::Transport(kind)),
    }
}

/// How far a handshake has come.
#[derive(Clone, Copy, Debug, PartialEq, Eq)]
pub enum Handshake {
    /// The transport that was held before is being closed.
    Releasing,
    /// The transport is being opened.
    Opening,
    /// The connection request is being written.
    Sending { handle: u64 },
    /// The broker's acknowledgement is awaited.
    Awaiting { handle: u64 },
    /// The handshake has failed with `error`, and its transport is being
    /// closed.
    Closing { error: ConnectError },
}

/// The connection manager.
#[derive(Debug, PartialEq, Eq)]
pub struct MQTTServer {
    server_addr: String,
    user_name: String,
    password: String,
    state: ConnectionState,
    reader: Option<u64>,
}

/// The mathematical content of an [`MQTTServer`]: the endpoint, the
/// connection state, and the transport that a keep-alive reader has been
/// started on, if any.
pub struct ServerView {
    pub server_addr: Seq<char>,
    pub user_name: Seq<char>,
    pub password: Seq<char>,
    pub state: ConnectionState,
    pub reader: Option<u64>,
}

/// One step of a handshake: what to ask next, or how it ended.
#[derive(Debug, PartialEq, Eq)]
pub enum Attempt {
    Pending { progress: Handshake, request: Request },
    Finished { outcome: Result<MQTTServer, ConnectError> },
}

/// The mathematical content of an [`Attempt`].
pub enum AttemptView {
    Pending { progress: Handshake, request: RequestView },
    Finished { outcome: Result<ServerView, ConnectError> },
}

/// One step of a reconnection: what to ask next on behalf of which manager,
/// or the manager that came of it.
#[derive(Debug, PartialEq, Eq)]
pub enum Reconnect {
    Pending { server: MQTTServer, progress: Handshake, request: Request },
    Finished { server: MQTTServer },
}

/// The mathematical content of a [`Reconnect`].
pub enum ReconnectView {
    Pending { server: ServerView, progress: Handshake, request: RequestView },
    Finished { server: ServerView },
}

impl ServerView {
    /// A reader is only ever recorded for the transport that is held.
    pub open spec fn wf(self) -> bool {
        self.reader matches Some(handle) ==> self.state == (ConnectionState::Connected { handle })
    }

    /// The transport that is held, if any.
    pub open spec fn transport(self) -> Option<u64> {
        match self.state {
            ConnectionState::Connected { handle } => Some(handle),
            ConnectionState::Disconnected => None,
        }
    }

    /// The same endpoint, without a transport.
    pub open spec fn disconnected(self) -> ServerView {
        ServerView { state: ConnectionState::Disconnected, reader: None, ..self }
    }

    /// The same endpoint, on the transport `handle`, with no reader yet.
    pub open spec fn connected(self, handle: u64) -> ServerView {
        ServerView { state: ConnectionState::Connected { handle }, reader: None, ..self }
    }

    /// The manager once a reader has been started on its transport.
    pub open spec fn started(self) -> ServerView {
        ServerView { reader: self.transport(), ..self }
    }

    /// The transport on which a reader is still to be started.
    pub open spec fn unarmed(self) -> Option<u64> {
        if self.reader == self.transport() {
            None
        } else {
            self.transport()
        }
    }

    /// The manager once the reader on `handle` has reported the loss of its
    /// connection: without a transport if `handle` is the one it holds,
    /// unchanged if that transport has been replaced since.
    pub open spec fn lost(self, handle: u64) -> ServerView {
        if self.state == (ConnectionState::Connected { handle }) {
            self.disconnected()
        } else {
            self
        }
    }

    /// The request to open a transport to the broker.
    pub open spec fn open_request(self) -> RequestView {
        RequestView::Open { address: self.server_addr }
    }

    /// The beginning of a handshake: the transport that is held, if any,
    /// is closed first, then one is opened.
    pub open spec fn begin(self) -> (Handshake, RequestView) {
        match self.state {
            ConnectionState::Connected { handle } => (
                Handshake::Releasing,
                RequestView::Close { handle },
            ),
            ConnectionState::Disconnected => (Handshake::Opening, self.open_request()),
        }
    }

    /// The step that ends a handshake in `error`, once the transport that
    /// it has opened is closed.
    pub open spec fn give_up(handle: u64, error: ConnectError) -> AttemptView {
        AttemptView::Pending {
            progress: Handshake::Closing { error },
            request: RequestView::Close { handle },
        }
    }

    /// The credentials are short enough for a connection request.
    pub open spec fn credentials_fit(self) -> bool {
        utf8_len(self.user_name) <= MAX_STRING_LENGTH && utf8_len(self.password)
            <= MAX_STRING_LENGTH
    }

    /// The connection request: a clean session under the client's fixed
    /// identifier, with the stored credentials.
    pub open spec fn connect_request(self) -> Seq<u8> {
        connect_frame(protocol_name(), client_identifier(), true, self.user_name, self.password)
    }

    /// One step of a handshake.
    ///
    /// Once the transport is open the connection request is written to it,
    /// then one acknowledgement is read. The handshake succeeds if and only
    /// if all three come about and the acknowledgement says "accepted". It
    /// fails at the first that does not, and ends once the transport that
    /// it has opened is closed again.
    pub open spec fn attempt(self, progress: Handshake, response: ResponseView) -> AttemptView {
        match progress {
            Handshake::Releasing => AttemptView::Pending {
                progress: Handshake::Opening,
                request: self.open_request(),
            },
            Handshake::Opening => match response {
                ResponseView::Opened(Some(handle)) => if self.credentials_fit() {
                    AttemptView::Pending {
                        progress: Handshake::Sending { handle },
                        request: RequestView::Write(
                            OutboundView { handle, frame: self.connect_request() },
                        ),
                    }
                } else {
                    Self::give_up(handle, ConnectError::ProtocolEncodeFailure)
                },
                _ => AttemptView::Finished { outcome: Err(ConnectError::Unreachable) },
            },
            Handshake::Sending { handle } => match response {
                ResponseView::Written(Ok(())) => AttemptView::Pending {
                    progress: Handshake::Awaiting { handle },
                    request: RequestView::ReadAck { handle, timeout_ms: HANDSHAKE_TIMEOUT_MS },
                },
                _ => Self::give_up(handle, ConnectError::Unreachable),
            },
            Handshake::Awaiting { handle } => match response {
                ResponseView::Acknowledged(Some(ConnectReturnCode::ConnectionAccepted)) => {
                    AttemptView::Finished { outcome: Ok(self.connected(handle)) }
                },
                ResponseView::Acknowledged(Some(code)) => Self::give_up(
                    handle,
                    ConnectError::Rejected(code),
                ),
                _ => Self::give_up(handle, ConnectError::ProtocolDecodeFailure),
            },
            Handshake::Closing { error } => AttemptView::Finished { outcome: Err(error) },
        }
    }

    /// One step of a reconnection: a handshake whose failure leaves the
    /// manager without a transport, and is no error.
    pub open spec fn reattempt(self, progress: Handshake, response: ResponseView) -> ReconnectView {
        match self.attempt(progress, response) {
            AttemptView::Pending { progress, request } => ReconnectView::Pending {
                server: self,
                progress,
                request,
            },
            AttemptView::Finished { outcome: Ok(server) } => ReconnectView::Finished { server },
            AttemptView::Finished { outcome: Err(_) } => ReconnectView::Finished {
                server: self.disconnected(),
            },
        }
    }

    /// What publishing `message` to `topic` comes to before anything is
    /// written: the frame for the transport that is held, or the reason why
    /// there is none. The frame asks for delivery at most once and for the
    /// broker to retain the message.
    pub open spec fn publish(self, topic: Seq<char>, message: Seq<u8>) -> Result<
        OutboundView,
        PublishError,
    > {
        match self.state {
            ConnectionState::Disconnected => Err(PublishError::NotConnected),
            ConnectionState::Connected { handle } => if frame_fits(topic, message) {
                Ok(OutboundView { handle, frame: publish_frame(topic, QoS::Level0, true, message) })
            } else {
                Err(PublishError::Transport(TransportErrorKind::Other))
            },
        }
    }
}

impl View for MQTTServer {
    type V = ServerView;

    closed spec fn view(&self) -> ServerView {
        ServerView {
            server_addr: self.server_addr@,
            user_name: self.user_name@,
            password: self.password@,
            state: self.state,
            reader: self.reader,
        }
    }
}

impl View for Attempt {
    type V = AttemptView;

    open spec fn view(&self) -> AttemptView {
        match *self {
            Attempt::Pending { progress, request } => AttemptView::Pending {
                progress,
                request: request@,
            },
            Attempt::Finished { outcome } => AttemptView::Finished {
                outcome: match outcome {
                    Ok(server) => Ok(server@),
                    Err(error) => Err(error),
                },
            },
        }
    }
}

impl View for Reconnect {
    type V = ReconnectView;

    open spec fn view(&self) -> ReconnectView {
        match *self {
            Reconnect::Pending { server, progress, request } => ReconnectView::Pending {
                server: server@,
                progress,
                request: request@,
            },
            Reconnect::Finished { server } => ReconnectView::Finished { server: server@ },
        }
    }
}

/// The view of what [`MQTTServer::publish`] returns.
pub open spec fn publish_view(result: Result<Outbound, PublishError>) -> Result<
    OutboundView,
    PublishError,
> {
    match result {
        Ok(outbound) => Ok(outbound@),
        Err(error) => Err(error),
    }
}

/// A manager without a transport publishes nothing: whatever the topic and
/// the message, the publication fails with [`PublishError::NotConnected`],
/// and no frame is handed out to be written.
pub proof fn lemma_disconnected_publishes_nothing(
    server: ServerView,
    topic: Seq<char>,
    message: Seq<u8>,
)
    requires
        server.state is Disconnected,
    ensures
        server.publish(topic, message) == Err::<OutboundView, PublishError>(
            PublishError::NotConnected,
        ),
{
}

/// A reconnection always ends in a manager for the same endpoint: on the
/// new transport where the handshake succeeded, and without a transport
/// where it failed, however often that happens.
pub proof fn lemma_reconnect_keeps_endpoint(
    server: ServerView,
    progress: Handshake,
    response: ResponseView,
)
    ensures
        match server.reattempt(progress, response) {
            ReconnectView::Pending { server: same, .. } => same == server,
            ReconnectView::Finished { server: next } => {
                &&& next.server_addr == server.server_addr
                &&& next.user_name == server.user_name
                &&& next.password == server.password
                &&& next.wf()
                &&& next.state is Disconnected <==> server.attempt(progress, response)
                    matches AttemptView::Finished { outcome: Err(_) }
            },
        },
{
}

/// The step of [`ServerView::give_up`].
fn give_up(handle: u64, error: ConnectError) -> (attempt: Attempt)
    ensures
        attempt@ == ServerView::give_up(handle, error),
{
    Attempt::Pending { progress: Handshake::Closing { error }, request: Request::Close { handle } }
}

impl MQTTServer {
    #[verifier::type_invariant]
    spec fn bound(self) -> bool {
        self@.wf()
    }

    /// A manager for the broker at `server_addr`, without a transport.
    pub fn new(server_addr: String, user_name: String, password: String) -> (server: MQTTServer)
        ensures
            server@ == (ServerView {
                server_addr: server_addr@,
                user_name: user_name@,
                password: password@,
                state: ConnectionState::Disconnected,
                reader: None,
            }),
    {
        MQTTServer {
            server_addr,
            user_name,
            password,
            state: ConnectionState::Disconnected,
            reader: None,
        }
    }

    /// The connection state.
    pub fn state(&self) -> (state: ConnectionState)
        ensures
            state == self@.state,
            self@.wf(),
    {
        proof {
            use_type_invariant(self);
        }
        self.state
    }

    /// The broker's address.
    pub fn server_addr(&self) -> (address: &String)
        ensures
            address@ == self@.server_addr,
    {
        &self.server_addr
    }

    /// The transport that is held, if any.
    pub fn transport(&self) -> (handle: Option<u64>)
        ensures
            handle == self@.transport(),
    {
        match self.state {
            ConnectionState::Connected { handle } => Some(handle),
            ConnectionState::Disconnected => None,
        }
    }

    /// Begins a handshake: asks for the transport that is held to be
    /// closed, or, where none is held, for one to be opened.
    pub fn open(&self) -> (begun: (Handshake, Request))
        ensures
            (begun.0, begun.1@) == self@.begin(),
    {
        match self.state {
            ConnectionState::Connected { handle } => (
                Handshake::Releasing,
                Request::Close { handle },
            ),
            ConnectionState::Disconnected => (
                Handshake::Opening,
                Request::Open { address: self.server_addr.clone() },
            ),
        }
    }

    /// A manager for the broker that `config` names, and the beginning of
    /// its first handshake. The caller carries the handshake through with
    /// [`MQTTServer::try_reconnect`]; a failure of this first one is meant
    /// to be fatal.
    pub fn connect(config: Config) -> (begun: (MQTTServer, Handshake, Request))
        ensures
            begun.0@ == (ServerView {
                server_addr: config@.server_addr,
                user_name: config@.user_name,
                password: config@.password,
                state: ConnectionState::Disconnected,
                reader: None,
            }),
            begun.1 == Handshake::Opening,
            begun.2@ == begun.0@.open_request(),
    {
        let server = MQTTServer::new(config.server_addr, config.user_name, config.password);
        let (progress, request) = server.open();
        (server, progress, request)
    }

    /// One step of a handshake with the stored endpoint: takes the response
    /// to the request of the step before and says what to ask next, or how
    /// the handshake ended. It ends in a manager on the new transport if
    /// and only if the transport was opened, the request written and an
    /// acknowledgement read that says "accepted".
    pub fn try_reconnect(&self, progress: Handshake, response: Response) -> (attempt: Attempt)
        ensures
            attempt@ == self@.attempt(progress, response@),
    {
        match progress {
            Handshake::Releasing => Attempt::Pending {
                progress: Handshake::Opening,
                request: Request::Open { address: self.server_addr.clone() },
            },
            Handshake::Closing { error } => Attempt::Finished { outcome: Err(error) },
            Handshake::Opening => match response {
                Response::Opened(Some(handle)) => {
                    if self.user_name.as_str().as_bytes().len() <= MAX_STRING_LENGTH
                        && self.password.as_str().as_bytes().len() <= MAX_STRING_LENGTH {
                        proof {
                            reveal_strlit("MQTT");
                            reveal_strlit("lsm_test_client");
                            lemma_ascii_string_bytes("MQTT"@);
                            lemma_ascii_string_bytes("lsm_test_client"@);
                        }
                        let frame = encode_connect(
                            "MQTT",
                            "lsm_test_client",
                            true,
                            self.user_name.as_str(),
                            self.password.as_str(),
                        );
                        Attempt::Pending {
                            progress: Handshake::Sending { handle },
                            request: Request::Write(Outbound { handle, frame }),
                        }
                    } else {
                        give_up(handle, ConnectError::ProtocolEncodeFailure)
                    }
                },
                _ => Attempt::Finished { outcome: Err(ConnectError::Unreachable) },
            },
            Handshake::Sending { handle } => match response {
                Response::Written(Ok(())) => Attempt::Pending {
                    progress: Handshake::Awaiting { handle },
                    request: Request::ReadAck { handle, timeout_ms: HANDSHAKE_TIMEOUT_MS },
                },
                _ => give_up(handle, ConnectError::Unreachable),
            },
            Handshake::Awaiting { handle } => match response {
                Response::Acknowledged(Some(ConnectReturnCode::ConnectionAccepted)) => {
                    let server = MQTTServer {
                        server_addr: self.server_addr.clone(),
                        user_name: self.user_name.clone(),
                        password: self.password.clone(),
                        state: ConnectionState::Connected { handle },
                        reader: None,
                    };
                    Attempt::Finished { outcome: Ok(server) }
                },
                Response::Acknowledged(Some(code)) => give_up(handle, ConnectError::Rejected(code)),
                _ => give_up(handle, ConnectError::ProtocolDecodeFailure),
            },
        }
    }

    /// One step of a reconnection: a handshake as in
    /// [`MQTTServer::try_reconnect`], but one that always ends in a
    /// manager. Where the handshake fails, the manager is left without a
    /// transport, to be reconnected another time.
    pub fn reconnect(self, progress: Handshake, response: Response) -> (step: Reconnect)
        ensures
            step@ == self@.reattempt(progress, response@),
    {
        match self.try_reconnect(progress, response) {
            Attempt::Pending { progress, request } => Reconnect::Pending {
                server: self,
                progress,
                request,
            },
            Attempt::Finished { outcome: Ok(server) } => Reconnect::Finished { server },
            Attempt::Finished { outcome: Err(_) } => Reconnect::Finished {
                server: MQTTServer {
                    server_addr: self.server_addr,
                    user_name: self.user_name,
                    password: self.password,
                    state: ConnectionState::Disconnected,
                    reader: None,
                },
            },
        }
    }

    /// Records that a keep-alive reader is started on the transport that is
    /// held, and names that transport. Names none where no transport is
    /// held, or where a reader has been started on it before: a transport
    /// never has two.
    pub fn start(self) -> (started: (MQTTServer, Option<u64>))
        ensures
            started.0@ == self@.started(),
            started.1 == self@.unarmed(),
    {
        proof {
            use_type_invariant(&self);
        }
        let held = self.transport();
        let spawn = match (held, self.reader) {
            (Some(handle), None) => Some(handle),
            _ => None,
        };
        let server = MQTTServer {
            server_addr: self.server_addr,
            user_name: self.user_name,
            password: self.password,
            state: self.state,
            reader: held,
        };
        (server, spawn)
    }

    /// Takes note that the keep-alive reader on `handle` has reported the
    /// loss of its connection.
    pub fn connection_lost(self, handle: u64) -> (server: MQTTServer)
        ensures
            server@ == self@.lost(handle),
    {
        match self.state {
            ConnectionState::Connected { handle: held } if held == handle => MQTTServer {
                server_addr: self.server_addr,
                user_name: self.user_name,
                password: self.password,
                state: ConnectionState::Disconnected,
                reader: None,
            },
            _ => self,
        }
    }

    /// Publishes `message` to `topic`, as far as that goes without writing:
    /// hands out the frame and the transport to write it to. Without a
    /// transport it fails at once with [`PublishError::NotConnected`]. A
    /// message too long for one frame is refused as a failure of the
    /// transport of the kind [`TransportErrorKind::Other`]. The manager
    /// stays as it is whatever the outcome.
    pub fn publish(&mut self, topic: &str, message: Vec<u8>) -> (result: Result<
        Outbound,
        PublishError,
    >)
        requires
            topic_valid(topic@),
        ensures
            *final(self) == *old(self),
            publish_view(result) == old(self)@.publish(topic@, message@),
    {
        match self.state {
            ConnectionState::Disconnected => Err(PublishError::NotConnected),
            ConnectionState::Connected { handle } => {
                let room = MAX_REMAINING_LENGTH - 2 - topic.as_bytes().len();
                if message.len() <= room {
                    let frame = encode_publish(topic, QoS::Level0, true, message.as_slice());
                    Ok(Outbound { handle, frame })
                } else {
                    Err(PublishError::Transport(TransportErrorKind::Other))
                }
            },
        }
    }

    /// Publishes the text of `value`, as [`MQTTServer::publish`] does: the
    /// message is the UTF-8 encoding of what `to_string` gives for it.
    pub fn publish_value<V: core::fmt::Display>(&mut self, topic: &str, value: V) -> (result:
        Result<Outbound, PublishError>)
        requires
            topic_valid(topic@),
        ensures
            *final(self) == *old(self),
            exists|text: String| #[trigger]
                to_string_from_display_ensures::<V>(&value, text) && publish_view(result) == old(
                    self,
                )@.publish(topic@, encode_utf8(text@)),
    {
        let message = value.to_string();
        self.publish(topic, message.as_str().as_bytes_vec())
    }

    /// What became of a publication once its frame was written, or was not.
    pub fn sent(written: Result<(), TransportErrorKind>) -> (result: Result<(), PublishError>)
        ensures
            result == publish_outcome(written),
    {
        match written {
            Ok(()) => Ok(()),
            Err(kind) => Err(PublishError::Transport(kind)),
        }
    }
}

/// An inbound frame, as far as the keep-alive reader tells frames apart.
#[derive(Clone, Copy, Debug, PartialEq, Eq)]
pub enum Inbound {
    /// The broker asks whether the client is alive.
    PingRequest,
    /// The broker ends the connection.
    Disconnect,
    /// Any other frame. A client that subscribes to nothing expects none.
    Other,
}

/// Why a frame's fixed header could not be read.
#[derive(Clone, Copy, Debug, PartialEq, Eq)]
pub enum HeaderFault {
    /// The transport failed.
    Io(TransportErrorKind),
    /// The bytes are no fixed header.
    Other,
}

/// Why no inbound frame could be had.
#[derive(Clone, Copy, Debug, PartialEq, Eq)]
pub enum PacketFault {
    /// The transport failed while the frame's body was read.
    Io(TransportErrorKind),
    /// The frame's fixed header could not be read.
    FixedHeader(HeaderFault),
    /// The bytes are no frame.
    Other,
}

/// What a failure to receive means for the connection.
#[derive(Clone, Copy, Debug, PartialEq, Eq)]
pub enum PacketReceiveError {
    /// The peer has reset the connection: it is gone.
    ConnectionReset,
    /// Anything else: noise, after which reading goes on.
    Other,
}

/// What the keep-alive reader does next.
#[derive(Debug, PartialEq, Eq)]
pub enum ReaderAction {
    /// Write the frame to the transport, then read on.
    Respond(Vec<u8>),
    /// Read on.
    Continue,
    /// Stop reading; `lost` says whether the connection is to be reported
    /// as lost.
    Stop { lost: bool },
}

/// The mathematical content of a [`ReaderAction`].
pub enum ReaderActionView {
    Respond(Seq<u8>),
    Continue,
    Stop { lost: bool },
}

impl View for ReaderAction {
    type V = ReaderActionView;

    open spec fn view(&self) -> ReaderActionView {
        match *self {
            ReaderAction::Respond(frame) => ReaderActionView::Respond(frame@),
            ReaderAction::Continue => ReaderActionView::Continue,
            ReaderAction::Stop { lost } => ReaderActionView::Stop { lost },
        }
    }
}

/// A failure to receive means that the connection is gone exactly where
/// the transport reports a reset, be it while reading a frame's header or
/// its body.
pub open spec fn receive_error(fault: PacketFault) -> PacketReceiveError {
    match fault {
        PacketFault::Io(TransportErrorKind::ConnectionReset) => PacketReceiveError::ConnectionReset,
        PacketFault::FixedHeader(HeaderFault::Io(TransportErrorKind::ConnectionReset)) => {
            PacketReceiveError::ConnectionReset
        },
        _ => PacketReceiveError::Other,
    }
}

/// What the keep-alive reader does with what it received: it answers a
/// ping, stops at the broker's disconnect, stops and reports the loss when
/// the connection was reset, and reads on after anything else.
pub open spec fn reader_action(received: Result<Inbound, PacketFault>) -> ReaderActionView {
    match received {
        Ok(Inbound::PingRequest) => ReaderActionView::Respond(pingresp_frame()),
        Ok(Inbound::Disconnect) => ReaderActionView::Stop { lost: false },
        Ok(Inbound::Other) => ReaderActionView::Continue,
        Err(fault) => match receive_error(fault) {
            PacketReceiveError::ConnectionReset => ReaderActionView::Stop { lost: true },
            PacketReceiveError::Other => ReaderActionView::Continue,
        },
    }
}

/// The keep-alive reader stops and reports the loss where a read fails
/// because the peer has reset the connection or because the stream has
/// ended, be it in a frame's header or in its body; after a read that
/// fails otherwise it reads on.
pub proof fn lemma_reader_stops_when_connection_is_gone(fault: IoFault)
    ensures
        reader_action(Err(PacketFault::Io(fault_kind(fault)))) == if fault == IoFault::Other {
            ReaderActionView::Continue
        } else {
            ReaderActionView::Stop { lost: true }
        },
        reader_action(Err(PacketFault::FixedHeader(HeaderFault::Io(fault_kind(fault)))))
            == reader_action(Err(PacketFault::Io(fault_kind(fault)))),
{
}

/// Classifies a failure to receive a frame.
pub fn handle_packet_receive_error(error: PacketFault) -> (class: PacketReceiveError)
    ensures
        class == receive_error(error),
{
    match error {
        PacketFault::Io(kind) => {
            if let TransportErrorKind::ConnectionReset = kind {
                return PacketReceiveError::ConnectionReset;
            }
        },
        PacketFault::FixedHeader(header) => {
            if let HeaderFault::Io(kind) = header {
                if let TransportErrorKind::ConnectionReset = kind {
                    return PacketReceiveError::ConnectionReset;
                }
            }
        },
        PacketFault::Other => {},
    }
    PacketReceiveError::Other
}

/// One round of the keep-alive reader: what to do with the frame that was
/// received, or with the failure to receive one.
pub fn keep_alive(received: Result<Inbound, PacketFault>) -> (action: ReaderAction)
    ensures
        action@ == reader_action(received),
{
    match received {
        Ok(Inbound::PingRequest) => ReaderAction::Respond(encode_pingresp()),
        Ok(Inbound::Disconnect) => ReaderAction::Stop { lost: false },
        Ok(Inbound::Other) => ReaderAction::Continue,
        Err(error) => match handle_packet_receive_error(error) {
            PacketReceiveError::ConnectionReset => ReaderAction::Stop { lost: true },
            PacketReceiveError::Other => ReaderAction::Continue,
        },
    }
}

} // verus!
