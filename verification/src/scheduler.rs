//! The scheduler: the agent's main loop, one response at a time.
//!
//! After a first handshake, which is fatal if it fails, round follows
//! round, each followed by a rest. A round that ends with the connection
//! gone is followed by a reconnection first; if that fails too, the next
//! round will find the manager without a transport and try again.

use crate::config::{
    default_config, monitor_views, Config, ConfigView, FileMonitor, FileMonitorView,
};
use crate::server::{
    Attempt, AttemptView, ConnectionState, Handshake, MQTTServer, PublishError, Reconnect,
    ReconnectView, ServerView,
};
use crate::transport::{Fatal, Request, RequestView, Response, ResponseView, TransportErrorKind};
use crate::watches::{
    begin_watches, send_watches, size_topic, topics_valid, usage_topic, used_topic, Watch,
    WatchStep, WatchStepView, WatchView, Watches,
};
use crate::wire::{is_valid_topic, topic_valid};
use vstd::prelude::*;
use vstd::string::StringExecFns;
use vstd::utf8::is_ascii_chars_encode_utf8;

verus! {

/// Where the scheduler stands.
#[derive(Debug, PartialEq, Eq)]
pub enum Stage {
    /// The first handshake is under way.
    Connecting(Handshake),
    /// A keep-alive reader is being started: before the first round, or
    /// after a reconnection.
    Arming { first: bool },
    /// A round is under way.
    Watching(Watch),
    /// A lost connection is being made anew.
    Reconnecting(Handshake),
    /// The scheduler rests between two rounds.
    Sleeping,
    /// The agent could not start.
    Halted { reason: Fatal },
}

/// The mathematical content of a [`Stage`].
pub enum StageView {
    Connecting(Handshake),
    Arming { first: bool },
    Watching(WatchView),
    Reconnecting(Handshake),
    Sleeping,
    Halted { reason: Fatal },
}

impl View for Stage {
    type V = StageView;

    open spec fn view(&self) -> StageView {
        match *self {
            Stage::Connecting(progress) => StageView::Connecting(progress),
            Stage::Arming { first } => StageView::Arming { first },
            Stage::Watching(progress) => StageView::Watching(progress@),
            Stage::Reconnecting(progress) => StageView::Reconnecting(progress),
            Stage::Sleeping => StageView::Sleeping,
            Stage::Halted { reason } => StageView::Halted { reason },
        }
    }
}

/// The agent's main loop.
#[derive(Debug, PartialEq, Eq)]
pub struct Scheduler {
    file_monitors: Vec<FileMonitor>,
    mount_monitor: String,
    mount_monitor_topic: String,
    publish_delay_ms: u64,
    server: MQTTServer,
    server_okay: bool,
    stage: Stage,
}

/// The mathematical content of a [`Scheduler`]: what its rounds work on,
/// the pause between them, whether the connection is taken to be healthy,
/// and the stage.
pub struct SchedulerView {
    pub server: ServerView,
    pub file_monitors: Seq<FileMonitorView>,
    pub mount_monitor: Seq<char>,
    pub mount_monitor_topic: Seq<char>,
    pub publish_delay_ms: u64,
    pub server_okay: bool,
    pub stage: StageView,
}

impl SchedulerView {
    /// What the rounds work on.
    pub open spec fn watches(self) -> Watches {
        Watches {
            server: self.server,
            file_monitors: self.file_monitors,
            mount_monitor: self.mount_monitor,
            mount_monitor_topic: self.mount_monitor_topic,
        }
    }

    /// The scheduler is past its first handshake, and has not given up.
    pub open spec fn running(self) -> bool {
        self.stage is Arming || self.stage is Watching || self.stage is Reconnecting
            || self.stage is Sleeping
    }

    /// The same scheduler at another stage.
    pub open spec fn at(self, stage: StageView) -> SchedulerView {
        SchedulerView { stage, ..self }
    }

    /// Rests until the next round is due.
    pub open spec fn rest(self) -> (SchedulerView, RequestView) {
        (self.at(StageView::Sleeping), RequestView::Sleep { millis: self.publish_delay_ms })
    }

    /// Marks the connection unhealthy and begins to make it anew.
    pub open spec fn remedy(self) -> (SchedulerView, RequestView) {
        (
            SchedulerView {
                server_okay: false,
                stage: StageView::Reconnecting(self.server.begin().0),
                ..self
            },
            self.server.begin().1,
        )
    }

    /// The end of a round: the connection is made anew if the round has
    /// shown it to be gone, or if it was marked unhealthy before; else the
    /// scheduler rests.
    pub open spec fn settle(self, outcome: Result<(), PublishError>) -> (
        SchedulerView,
        RequestView,
    ) {
        if (outcome matches Err(error) && error.connection_lost()) || !self.server_okay {
            self.remedy()
        } else {
            self.rest()
        }
    }

    /// Takes a step of a round.
    pub open spec fn follow(self, step: WatchStepView) -> (SchedulerView, RequestView) {
        match step {
            WatchStepView::Pending { progress, request } => (
                self.at(StageView::Watching(progress)),
                request,
            ),
            WatchStepView::Finished { outcome } => self.settle(outcome),
        }
    }

    /// Begins a round.
    pub open spec fn tick(self) -> (SchedulerView, RequestView) {
        self.follow(self.watches().begin())
    }

    /// Goes on once a handshake is over and its reader, if any, started:
    /// with the first round after the first handshake, with a rest after a
    /// reconnection.
    pub open spec fn go_on(self, first: bool) -> (SchedulerView, RequestView) {
        if first {
            self.tick()
        } else {
            self.rest()
        }
    }

    /// Takes over the manager that a handshake ended in, marks the
    /// connection healthy, and has a keep-alive reader started on the
    /// manager's transport, if it holds one.
    pub open spec fn arm(self, server: ServerView, first: bool) -> (SchedulerView, RequestView) {
        let armed = SchedulerView { server: server.started(), server_okay: true, ..self };
        match server.unarmed() {
            Some(handle) => (
                armed.at(StageView::Arming { first }),
                RequestView::SpawnReader { handle },
            ),
            None => armed.go_on(first),
        }
    }

    /// Takes note of what the keep-alive readers have reported: the loss
    /// of the transport that is held leaves the manager without one and
    /// marks the connection unhealthy; the loss of any other transport
    /// changes nothing.
    pub open spec fn notice(self, lost: Seq<u64>) -> SchedulerView {
        match self.server.state {
            ConnectionState::Connected { handle } if lost.contains(handle) => SchedulerView {
                server: self.server.lost(handle),
                server_okay: false,
                ..self
            },
            _ => self,
        }
    }

    /// One step of the main loop.
    pub open spec fn step(self, response: ResponseView) -> (SchedulerView, RequestView) {
        match self.stage {
            StageView::Connecting(progress) => match self.server.attempt(progress, response) {
                AttemptView::Pending { progress, request } => (
                    self.at(StageView::Connecting(progress)),
                    request,
                ),
                AttemptView::Finished { outcome: Ok(server) } => self.arm(server, true),
                AttemptView::Finished { outcome: Err(error) } => (
                    self.at(StageView::Halted { reason: Fatal::Connect(error) }),
                    RequestView::Abort { reason: Fatal::Connect(error) },
                ),
            },
            StageView::Arming { first } => self.go_on(first),
            StageView::Watching(progress) => self.follow(self.watches().step(progress, response)),
            StageView::Reconnecting(progress) => match self.server.reattempt(progress, response) {
                ReconnectView::Pending { server, progress, request } => (
                    self.at(StageView::Reconnecting(progress)),
                    request,
                ),
                ReconnectView::Finished { server } => self.arm(server, false),
            },
            StageView::Sleeping => self.notice(
                match response {
                    ResponseView::Woke(lost) => lost,
                    _ => Seq::empty(),
                },
            ).tick(),
            StageView::Halted { reason } => (self, RequestView::Abort { reason }),
        }
    }
}

/// The scheduler that a configuration gives rise to, and its first
/// request: to open a transport to the broker, or to give up where a
/// configured topic is not one that a message can be published to.
pub open spec fn launch(config: ConfigView) -> (SchedulerView, RequestView) {
    let server = ServerView {
        server_addr: config.server_addr,
        user_name: config.user_name,
        password: config.password,
        state: ConnectionState::Disconnected,
        reader: None,
    };
    let scheduler = SchedulerView {
        server,
        file_monitors: config.file_monitors,
        mount_monitor: config.mount_monitor,
        mount_monitor_topic: config.mount_monitor_topic,
        publish_delay_ms: config.publish_delay_ms,
        server_okay: true,
        stage: StageView::Connecting(Handshake::Opening),
    };
    if topics_valid(config.file_monitors, config.mount_monitor_topic) {
        (scheduler, server.open_request())
    } else {
        (
            scheduler.at(StageView::Halted { reason: Fatal::InvalidTopic }),
            RequestView::Abort { reason: Fatal::InvalidTopic },
        )
    }
}

/// The default configuration can be launched: its topics are ones that a
/// message can be published to, so the scheduler begins by opening a
/// transport to the default broker.
pub proof fn lemma_default_config_launches()
    ensures
        topics_valid(default_config().file_monitors, default_config().mount_monitor_topic),
        launch(default_config()).1 == (RequestView::Open { address: "127.0.0.1:1883"@ }),
{
    reveal_strlit("mqtt/learning");
    reveal_strlit("mqtt/mount_monitor");
    reveal_strlit("/used");
    reveal_strlit("/size");
    reveal_strlit("/usage");
    let prefix = "mqtt/mount_monitor"@;
    is_ascii_chars_encode_utf8("mqtt/learning"@);
    is_ascii_chars_encode_utf8(used_topic(prefix));
    is_ascii_chars_encode_utf8(size_topic(prefix));
    is_ascii_chars_encode_utf8(usage_topic(prefix));
}

/// A write that the peer has reset ends the round there and then: no
/// further publication of the round is asked for. The scheduler marks the
/// connection unhealthy and turns to the reconnection at once: it asks for
/// the transport that is held to be closed, and next for one to be opened
/// to the broker, whatever it is told in between.
pub proof fn lemma_reset_suppresses_round(
    s: SchedulerView,
    progress: WatchView,
    handle: u64,
    closed: ResponseView,
)
    requires
        s.stage == StageView::Watching(progress),
        progress.awaits_write(),
        s.server.state == (ConnectionState::Connected { handle }),
    ensures
        ({
            let reset = ResponseView::Written(Err(TransportErrorKind::ConnectionReset));
            &&& s.watches().step(progress, reset) == (WatchStepView::Finished {
                outcome: Err(PublishError::Transport(TransportErrorKind::ConnectionReset)),
            })
            &&& s.step(reset) == s.remedy()
            &&& !s.step(reset).0.server_okay
            &&& s.step(reset).0.server == s.server
            &&& s.step(reset).1 == (RequestView::Close { handle })
            &&& s.step(reset).0.step(closed).1 == (RequestView::Open {
                address: s.server.server_addr,
            })
            &&& !s.step(reset).0.step(closed).0.server_okay
        }),
{
}

/// A round on a manager without a transport writes nothing: the first
/// value that is read ends it, and a reconnection is attempted next.
pub proof fn lemma_disconnected_round_reconnects(
    s: SchedulerView,
    index: usize,
    response: ResponseView,
)
    requires
        s.stage == StageView::Watching(WatchView::Reading { index }),
        index < s.file_monitors.len(),
        s.server.state is Disconnected,
    ensures
        s.watches().step(WatchView::Reading { index }, response) == (WatchStepView::Finished {
            outcome: Err(PublishError::NotConnected),
        }),
        s.step(response) == s.remedy(),
        s.step(response).1 == (RequestView::Open { address: s.server.server_addr }),
{
}

/// Past its first handshake the scheduler never gives up: whatever the
/// response, it stays running and asks for something other than to abort.
pub proof fn lemma_running_never_aborts(s: SchedulerView, response: ResponseView)
    requires
        s.running(),
    ensures
        s.step(response).0.running(),
        !(s.step(response).1 is Abort),
{
}

/// A reconnection that fails is put up with: the manager is left without a
/// transport, on the same endpoint, and the scheduler rests until the next
/// round is due.
pub proof fn lemma_failed_reconnect_rests(
    s: SchedulerView,
    progress: Handshake,
    response: ResponseView,
)
    requires
        s.stage == StageView::Reconnecting(progress),
        s.server.attempt(progress, response) matches AttemptView::Finished { outcome: Err(_) },
    ensures
        s.step(response).0.stage == StageView::Sleeping,
        s.step(response).0.server == s.server.disconnected(),
        s.step(response).1 == (RequestView::Sleep { millis: s.publish_delay_ms }),
{
}

/// While the manager has no transport, every round that has a monitor to
/// publish attempts a reconnection: the round reads the first monitor's
/// value, publishes nothing, and asks for a transport to the broker to be
/// opened. If that fails, the scheduler rests as it did before the round,
/// with the manager still without a transport, so that the next round
/// does the same.
pub proof fn lemma_each_round_retries(s: SchedulerView, woke: ResponseView, value: ResponseView)
    requires
        s.stage == StageView::Sleeping,
        s.server.state is Disconnected,
        0 < s.file_monitors.len() <= usize::MAX,
    ensures
        ({
            let (read, first) = s.step(woke);
            let (open, second) = read.step(value);
            let (rest, third) = open.step(ResponseView::Opened(None));
            &&& first == (RequestView::ReadValue {
                file: s.file_monitors[0].file,
                index: s.file_monitors[0].index,
            })
            &&& second == (RequestView::Open { address: s.server.server_addr })
            &&& open.stage == StageView::Reconnecting(Handshake::Opening)
            &&& open.server == s.server
            &&& third == (RequestView::Sleep { millis: s.publish_delay_ms })
            &&& rest == (SchedulerView { server: s.server.disconnected(), server_okay: true, ..s })
        }),
{
}

/// Whether every topic of a round is one that a message can be published
/// to.
fn check_topics(file_monitors: &Vec<FileMonitor>, mount_monitor_topic: &str) -> (valid: bool)
    ensures
        valid == topics_valid(monitor_views(file_monitors@), mount_monitor_topic@),
{
    let mut at: usize = 0;
    while at < file_monitors.len()
        invariant
            at <= file_monitors@.len(),
            forall|i: int|
                0 <= i < at ==> topic_valid(#[trigger] monitor_views(file_monitors@)[i].topic),
        decreases file_monitors@.len() - at,
    {
        if !is_valid_topic(file_monitors[at].topic.as_str()) {
            assert(!topic_valid(monitor_views(file_monitors@)[at as int].topic));
            return false;
        }
        at += 1;
    }
    let used = mount_monitor_topic.to_owned().concat("/used");
    let size = mount_monitor_topic.to_owned().concat("/size");
    let usage = mount_monitor_topic.to_owned().concat("/usage");
    is_valid_topic(used.as_str()) && is_valid_topic(size.as_str()) && is_valid_topic(
        usage.as_str(),
    )
}

/// Whether `handle` is among `handles`.
fn contains(handles: &Vec<u64>, handle: u64) -> (found: bool)
    ensures
        found == handles@.contains(handle),
{
    let mut at: usize = 0;
    while at < handles.len()
        invariant
            at <= handles@.len(),
            forall|i: int| 0 <= i < at ==> handles@[i] != handle,
        decreases handles@.len() - at,
    {
        if handles[at] == handle {
            return true;
        }
        at += 1;
    }
    false
}

impl View for Scheduler {
    type V = SchedulerView;

    closed spec fn view(&self) -> SchedulerView {
        SchedulerView {
            server: self.server@,
            file_monitors: monitor_views(self.file_monitors@),
            mount_monitor: self.mount_monitor@,
            mount_monitor_topic: self.mount_monitor_topic@,
            publish_delay_ms: self.publish_delay_ms,
            server_okay: self.server_okay,
            stage: self.stage@,
        }
    }
}

impl Scheduler {
    /// Unless the agent could not start, every topic it publishes to is
    /// one that a message can be published to.
    #[verifier::type_invariant]
    spec fn publishable(self) -> bool {
        self.stage is Halted || topics_valid(
            monitor_views(self.file_monitors@),
            self.mount_monitor_topic@,
        )
    }

    /// The stage.
    pub fn stage(&self) -> (stage: &Stage)
        ensures
            stage@ == self@.stage,
    {
        &self.stage
    }

    /// The connection manager.
    pub fn server(&self) -> (server: &MQTTServer)
        ensures
            server@ == self@.server,
    {
        &self.server
    }

    /// Whether the connection is taken to be healthy.
    pub fn server_okay(&self) -> (okay: bool)
        ensures
            okay == self@.server_okay,
    {
        self.server_okay
    }

    /// Sets the agent up from its configuration and says what to do first.
    pub fn launch(config: Config) -> (begun: (Scheduler, Request))
        ensures
            (begun.0@, begun.1@) == launch(config@),
    {
        let valid = check_topics(&config.file_monitors, config.mount_monitor_topic.as_str());
        let server = MQTTServer::new(config.server_addr, config.user_name, config.password);
        let (stage, request) = if valid {
            let (progress, request) = server.open();
            (Stage::Connecting(progress), request)
        } else {
            (
                Stage::Halted { reason: Fatal::InvalidTopic },
                Request::Abort { reason: Fatal::InvalidTopic },
            )
        };
        let scheduler = Scheduler {
            file_monitors: config.file_monitors,
            mount_monitor: config.mount_monitor,
            mount_monitor_topic: config.mount_monitor_topic,
            publish_delay_ms: config.publish_delay_ms,
            server,
            server_okay: true,
            stage,
        };
        (scheduler, request)
    }

    fn rest(self) -> (next: (Scheduler, Request))
        requires
            !(self.stage is Halted),
        ensures
            (next.0@, next.1@) == self@.rest(),
    {
        proof {
            use_type_invariant(&self);
        }
        let request = Request::Sleep { millis: self.publish_delay_ms };
        (Scheduler { stage: Stage::Sleeping, ..self }, request)
    }

    fn remedy(self) -> (next: (Scheduler, Request))
        requires
            !(self.stage is Halted),
        ensures
            (next.0@, next.1@) == self@.remedy(),
    {
        proof {
            use_type_invariant(&self);
        }
        let (progress, request) = self.server.open();
        (Scheduler { server_okay: false, stage: Stage::Reconnecting(progress), ..self }, request)
    }

    fn follow(self, step: WatchStep) -> (next: (Scheduler, Request))
        requires
            !(self.stage is Halted),
        ensures
            (next.0@, next.1@) == self@.follow(step@),
    {
        proof {
            use_type_invariant(&self);
        }
        match step {
            WatchStep::Pending { progress, request } => (
                Scheduler { stage: Stage::Watching(progress), ..self },
                request,
            ),
            WatchStep::Finished { outcome } => {
                let lost = match outcome {
                    Err(error) => error.is_connection_lost(),
                    Ok(()) => false,
                };
                if lost || !self.server_okay {
                    self.remedy()
                } else {
                    self.rest()
                }
            },
        }
    }

    fn tick(self) -> (next: (Scheduler, Request))
        requires
            !(self.stage is Halted),
        ensures
            (next.0@, next.1@) == self@.tick(),
    {
        let step = begin_watches(&self.file_monitors);
        self.follow(step)
    }

    fn go_on(self, first: bool) -> (next: (Scheduler, Request))
        requires
            !(self.stage is Halted),
        ensures
            (next.0@, next.1@) == self@.go_on(first),
    {
        if first {
            self.tick()
        } else {
            self.rest()
        }
    }

    fn arm(self, first: bool) -> (next: (Scheduler, Request))
        requires
            !(self.stage is Halted),
        ensures
            (next.0@, next.1@) == self@.arm(self@.server, first),
    {
        proof {
            use_type_invariant(&self);
        }
        let (started, spawn) = self.server.start();
        let armed = Scheduler {
            server: started,
            server_okay: true,
            stage: Stage::Arming { first },
            ..self
        };
        match spawn {
            Some(handle) => (armed, Request::SpawnReader { handle }),
            None => armed.go_on(first),
        }
    }

    /// One step of the main loop: takes the response to the request of the
    /// step before and says what to do next.
    pub fn step(self, response: Response) -> (next: (Scheduler, Request))
        ensures
            (next.0@, next.1@) == self@.step(response@),
    {
        proof {
            use_type_invariant(&self);
        }
        match self.stage {
            Stage::Connecting(progress) => match self.server.try_reconnect(progress, response) {
                Attempt::Pending { progress, request } => (
                    Scheduler { stage: Stage::Connecting(progress), ..self },
                    request,
                ),
                Attempt::Finished { outcome: Ok(server) } => {
                    let connected = Scheduler { server, ..self };
                    connected.arm(true)
                },
                Attempt::Finished { outcome: Err(error) } => (
                    Scheduler { stage: Stage::Halted { reason: Fatal::Connect(error) }, ..self },
                    Request::Abort { reason: Fatal::Connect(error) },
                ),
            },
            Stage::Arming { first } => self.go_on(first),
            Stage::Watching(progress) => {
                let mut server = self.server;
                let step = send_watches(
                    &mut server,
                    &self.file_monitors,
                    self.mount_monitor.as_str(),
                    self.mount_monitor_topic.as_str(),
                    progress,
                    response,
                );
                let scheduler = Scheduler { server, stage: Stage::Sleeping, ..self };
                scheduler.follow(step)
            },
            Stage::Reconnecting(progress) => match self.server.reconnect(progress, response) {
                Reconnect::Pending { server, progress, request } => (
                    Scheduler { server, stage: Stage::Reconnecting(progress), ..self },
                    request,
                ),
                Reconnect::Finished { server } => {
                    let reconnected = Scheduler { server, stage: Stage::Sleeping, ..self };
                    reconnected.arm(false)
                },
            },
            Stage::Sleeping => {
                let noticed = match (response, self.server.transport()) {
                    (Response::Woke(lost), Some(held)) => contains(&lost, held),
                    _ => false,
                };
                match (noticed, self.server.transport()) {
                    (true, Some(held)) => {
                        let server = self.server.connection_lost(held);
                        let scheduler = Scheduler { server, server_okay: false, ..self };
                        scheduler.tick()
                    },
                    _ => self.tick(),
                }
            },
            Stage::Halted { reason } => (self, Request::Abort { reason }),
        }
    }
}

} // verus!
