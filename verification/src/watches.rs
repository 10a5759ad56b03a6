//! One round of sampling and publishing.
//!
//! A round reads each file metric and publishes it, in the configured
//! order, then publishes the watched mount point's figures. A publication
//! that fails without showing the connection to be gone is passed over;
//! one that shows it gone ends the round.

use crate::config::{monitor_views, FileMonitor, FileMonitorView};
use crate::datatools::{decimal, decimal_digits, mount_entry, MountInfoView};
use crate::server::{publish_outcome, ConnectionState, MQTTServer, PublishError, ServerView};
use crate::transport::{
    OutboundView, Request, RequestView, Response, ResponseView, TransportErrorKind,
};
use crate::wire::{frame_fits, publish_frame, topic_valid, QoS};
use vstd::prelude::*;
use vstd::string::{StrSliceExecFns, StringExecFns};
use vstd::utf8::encode_utf8;

verus! {

/// How far a round has come.
#[derive(Debug, PartialEq, Eq)]
pub enum Watch {
    /// The value of the monitor at `index` is being read.
    Reading { index: usize },
    /// The value of the monitor at `index` is being written.
    Sending { index: usize },
    /// The mounted file systems are being listed.
    Listing,
    /// The mount point's used space is being written; its size and usage
    /// are still to come.
    SendingUsed { size: String, usage: u32 },
    /// The mount point's size is being written; its usage is still to come.
    SendingSize { usage: u32 },
    /// The mount point's usage is being written.
    SendingUsage,
}

/// The mathematical content of a [`Watch`].
pub enum WatchView {
    Reading { index: usize },
    Sending { index: usize },
    Listing,
    SendingUsed { size: Seq<char>, usage: u32 },
    SendingSize { usage: u32 },
    SendingUsage,
}

impl View for Watch {
    type V = WatchView;

    open spec fn view(&self) -> WatchView {
        match *self {
            Watch::Reading { index } => WatchView::Reading { index },
            Watch::Sending { index } => WatchView::Sending { index },
            Watch::Listing => WatchView::Listing,
            Watch::SendingUsed { size, usage } => WatchView::SendingUsed { size: size@, usage },
            Watch::SendingSize { usage } => WatchView::SendingSize { usage },
            Watch::SendingUsage => WatchView::SendingUsage,
        }
    }
}

impl WatchView {
    /// A stage at which the response to a write is awaited.
    pub open spec fn awaits_write(self) -> bool {
        self is Sending || self is SendingUsed || self is SendingSize || self is SendingUsage
    }
}

/// One step of a round: what to ask next, or how the round ended. A round
/// ends in an error exactly when a publication has shown the connection to
/// be gone.
#[derive(Debug, PartialEq, Eq)]
pub enum WatchStep {
    Pending { progress: Watch, request: Request },
    Finished { outcome: Result<(), PublishError> },
}

/// The mathematical content of a [`WatchStep`].
pub enum WatchStepView {
    Pending { progress: WatchView, request: RequestView },
    Finished { outcome: Result<(), PublishError> },
}

impl View for WatchStep {
    type V = WatchStepView;

    open spec fn view(&self) -> WatchStepView {
        match *self {
            WatchStep::Pending { progress, request } => WatchStepView::Pending {
                progress: progress@,
                request: request@,
            },
            WatchStep::Finished { outcome } => WatchStepView::Finished { outcome },
        }
    }
}

/// The message that publishes a value read: its text, or `0` where there
/// is none.
pub open spec fn value_payload(text: Option<Seq<char>>) -> Seq<u8> {
    match text {
        Some(text) => encode_utf8(text),
        None => seq![0x30u8],
    }
}

/// The value that a response reports; none, if the response is of another
/// kind.
pub open spec fn value_read(response: ResponseView) -> Option<Seq<char>> {
    match response {
        ResponseView::Value(text) => text,
        _ => None,
    }
}

/// What a response says of a write; a failure, if the response is of
/// another kind.
pub open spec fn write_result(response: ResponseView) -> Result<(), TransportErrorKind> {
    match response {
        ResponseView::Written(result) => result,
        _ => Err(TransportErrorKind::Other),
    }
}

/// The table of mounted file systems that a response reports; none, if the
/// response is of another kind.
pub open spec fn mounts_listed(response: ResponseView) -> Option<Seq<MountInfoView>> {
    match response {
        ResponseView::Mounts(table) => table,
        _ => None,
    }
}

/// The topic of the mount point's used space.
pub open spec fn used_topic(prefix: Seq<char>) -> Seq<char> {
    prefix + "/used"@
}

/// The topic of the mount point's size.
pub open spec fn size_topic(prefix: Seq<char>) -> Seq<char> {
    prefix + "/size"@
}

/// The topic of the mount point's usage.
pub open spec fn usage_topic(prefix: Seq<char>) -> Seq<char> {
    prefix + "/usage"@
}

/// Every topic of a round is one that a message can be published to.
pub open spec fn topics_valid(file_monitors: Seq<FileMonitorView>, prefix: Seq<char>) -> bool {
    &&& forall|i: int|
        0 <= i < file_monitors.len() ==> topic_valid(#[trigger] file_monitors[i].topic)
    &&& topic_valid(used_topic(prefix))
    &&& topic_valid(size_topic(prefix))
    &&& topic_valid(usage_topic(prefix))
}

/// The step that asks for `outbound` to be written and moves to `then`.
pub open spec fn writing(then: WatchView, outbound: OutboundView) -> WatchStepView {
    WatchStepView::Pending { progress: then, request: RequestView::Write(outbound) }
}

/// The step that ends a round without an error.
pub open spec fn finished() -> WatchStepView {
    WatchStepView::Finished { outcome: Ok(()) }
}

/// Goes on with the monitor at `index`, or with the mount point once the
/// monitors are through.
pub open spec fn turn_to(file_monitors: Seq<FileMonitorView>, index: int) -> WatchStepView {
    if 0 <= index < file_monitors.len() {
        WatchStepView::Pending {
            progress: WatchView::Reading { index: index as usize },
            request: RequestView::ReadValue {
                file: file_monitors[index].file,
                index: file_monitors[index].index,
            },
        }
    } else {
        WatchStepView::Pending { progress: WatchView::Listing, request: RequestView::ListMounts }
    }
}

/// Publishes `message` to `topic`: asks for its frame to be written and
/// moves to `then`; ends the round where the connection is gone; and goes
/// on with `otherwise` where the message cannot be sent for another
/// reason.
pub open spec fn send(
    server: ServerView,
    topic: Seq<char>,
    message: Seq<u8>,
    then: WatchView,
    otherwise: WatchStepView,
) -> WatchStepView {
    match server.publish(topic, message) {
        Ok(outbound) => writing(then, outbound),
        Err(error) => if error.connection_lost() {
            WatchStepView::Finished { outcome: Err(error) }
        } else {
            otherwise
        },
    }
}

/// After a write: ends the round where the write has shown the connection
/// to be gone, and goes on with `next` otherwise, whether the write
/// succeeded or not.
pub open spec fn written(response: ResponseView, next: WatchStepView) -> WatchStepView {
    match publish_outcome(write_result(response)) {
        Err(error) if error.connection_lost() => WatchStepView::Finished { outcome: Err(error) },
        _ => next,
    }
}

/// Publishes the mount point's usage, the last of its figures.
pub open spec fn send_usage(server: ServerView, prefix: Seq<char>, usage: u32) -> WatchStepView {
    send(
        server,
        usage_topic(prefix),
        decimal_digits(usage as nat),
        WatchView::SendingUsage,
        finished(),
    )
}

/// Publishes the mount point's size; the usage follows.
pub open spec fn send_size(
    server: ServerView,
    prefix: Seq<char>,
    size: Seq<char>,
    usage: u32,
) -> WatchStepView {
    send(
        server,
        size_topic(prefix),
        encode_utf8(size),
        WatchView::SendingSize { usage },
        send_usage(server, prefix, usage),
    )
}

/// Publishes the mount point's used space; size and usage follow.
pub open spec fn send_used(
    server: ServerView,
    prefix: Seq<char>,
    used: Seq<char>,
    size: Seq<char>,
    usage: u32,
) -> WatchStepView {
    send(
        server,
        used_topic(prefix),
        encode_utf8(used),
        WatchView::SendingUsed { size, usage },
        send_size(server, prefix, size, usage),
    )
}

/// What a round works on: the connection manager, the file metrics in
/// publishing order, and the watched mount point with the prefix of its
/// topics.
pub struct Watches {
    pub server: ServerView,
    pub file_monitors: Seq<FileMonitorView>,
    pub mount_monitor: Seq<char>,
    pub mount_monitor_topic: Seq<char>,
}

impl Watches {
    /// The first step of a round.
    pub open spec fn begin(self) -> WatchStepView {
        turn_to(self.file_monitors, 0)
    }

    /// One step of a round.
    ///
    /// Each monitor's value is read and then published under the monitor's
    /// topic, `0` standing in for a value that could not be read. After the
    /// last monitor the mounted file systems are listed, and if the watched
    /// mount point is among them its used space, size and usage are
    /// published, in this order. A table that cannot be listed, or that
    /// lacks the mount point, ends the round without an error.
    pub open spec fn step(self, progress: WatchView, response: ResponseView) -> WatchStepView {
        match progress {
            WatchView::Reading { index } => if index < self.file_monitors.len() {
                send(
                    self.server,
                    self.file_monitors[index as int].topic,
                    value_payload(value_read(response)),
                    WatchView::Sending { index },
                    turn_to(self.file_monitors, index + 1),
                )
            } else {
                turn_to(self.file_monitors, index as int)
            },
            WatchView::Sending { index } => written(
                response,
                turn_to(self.file_monitors, index + 1),
            ),
            WatchView::Listing => match mounts_listed(response) {
                Some(table) => match mount_entry(table, self.mount_monitor) {
                    Some(info) => send_used(
                        self.server,
                        self.mount_monitor_topic,
                        info.used,
                        info.size,
                        info.usage,
                    ),
                    None => finished(),
                },
                None => finished(),
            },
            WatchView::SendingUsed { size, usage } => written(
                response,
                send_size(self.server, self.mount_monitor_topic, size, usage),
            ),
            WatchView::SendingSize { usage } => written(
                response,
                send_usage(self.server, self.mount_monitor_topic, usage),
            ),
            WatchView::SendingUsage => written(response, finished()),
        }
    }

    /// The steps that a round takes in answer to `responses`, from `step`
    /// on: each response goes to the step before it, and with the round's
    /// end the steps end.
    pub open spec fn run(self, step: WatchStepView, responses: Seq<ResponseView>) -> Seq<
        WatchStepView,
    >
        decreases responses.len(),
    {
        match step {
            WatchStepView::Pending { progress, request } if responses.len() > 0 => {
                let next = self.step(progress, responses[0]);
                seq![next] + self.run(next, responses.skip(1))
            },
            _ => Seq::empty(),
        }
    }

    /// The step that publishes `value` for the monitor at `index` on the
    /// transport `handle`.
    pub open spec fn publication(
        self,
        handle: u64,
        index: int,
        value: Option<Seq<char>>,
    ) -> WatchStepView {
        publishing(
            handle,
            self.file_monitors[index].topic,
            value_payload(value),
            WatchView::Sending { index: index as usize },
        )
    }
}

/// The step that asks for the frame of `message` under `topic` to be
/// written to the transport `handle`, and moves to `then`.
pub open spec fn publishing(
    handle: u64,
    topic: Seq<char>,
    message: Seq<u8>,
    then: WatchView,
) -> WatchStepView {
    writing(then, OutboundView { handle, frame: publish_frame(topic, QoS::Level0, true, message) })
}

/// What a round works on, put together from its parts.
pub open spec fn watches(
    server: ServerView,
    file_monitors: Seq<FileMonitor>,
    mount_monitor: Seq<char>,
    mount_monitor_topic: Seq<char>,
) -> Watches {
    Watches {
        server,
        file_monitors: monitor_views(file_monitors),
        mount_monitor,
        mount_monitor_topic,
    }
}

/// The responses to a round's work on its monitors: for each monitor in
/// turn the value read, then what the write of its frame came to.
pub open spec fn metric_responses(
    values: Seq<Option<Seq<char>>>,
    results: Seq<Result<(), TransportErrorKind>>,
) -> Seq<ResponseView>
    decreases values.len(),
{
    if values.len() == 0 {
        Seq::empty()
    } else {
        seq![ResponseView::Value(values[0]), ResponseView::Written(results[0])] + metric_responses(
            values.skip(1),
            results.skip(1),
        )
    }
}

/// The values fit into frames and no write shows the connection to be
/// gone: what it takes for a round to publish every monitor.
pub open spec fn unhindered(
    file_monitors: Seq<FileMonitorView>,
    values: Seq<Option<Seq<char>>>,
    results: Seq<Result<(), TransportErrorKind>>,
) -> bool {
    &&& values.len() == file_monitors.len()
    &&& results.len() == file_monitors.len()
    &&& forall|i: int|
        0 <= i < file_monitors.len() ==> frame_fits(
            file_monitors[i].topic,
            value_payload(#[trigger] values[i]),
        )
    &&& forall|i: int|
        0 <= i < file_monitors.len() ==> #[trigger] results[i] != Err::<(), TransportErrorKind>(
            TransportErrorKind::ConnectionReset,
        )
}

proof fn lemma_monitors_from(
    w: Watches,
    handle: u64,
    values: Seq<Option<Seq<char>>>,
    results: Seq<Result<(), TransportErrorKind>>,
    from: int,
)
    requires
        w.server.state == (ConnectionState::Connected { handle }),
        w.file_monitors.len() <= usize::MAX,
        unhindered(w.file_monitors, values, results),
        0 <= from <= w.file_monitors.len(),
    ensures
        ({
            let steps = w.run(
                turn_to(w.file_monitors, from),
                metric_responses(values.skip(from), results.skip(from)),
            );
            &&& steps.len() == 2 * (w.file_monitors.len() - from)
            &&& forall|i: int|
                from <= i < w.file_monitors.len() ==> #[trigger] steps[2 * (i - from)]
                    == w.publication(handle, i, values[i])
            &&& forall|i: int|
                from <= i < w.file_monitors.len() ==> #[trigger] steps[2 * (i - from) + 1]
                    == turn_to(w.file_monitors, i + 1)
        }),
    decreases w.file_monitors.len() - from,
{
    let responses = metric_responses(values.skip(from), results.skip(from));
    let steps = w.run(turn_to(w.file_monitors, from), responses);
    if from < w.file_monitors.len() {
        let later = metric_responses(values.skip(from).skip(1), results.skip(from).skip(1));
        assert(values.skip(from).skip(1) == values.skip(from + 1));
        assert(results.skip(from).skip(1) == results.skip(from + 1));
        assert(responses[0] == ResponseView::Value(values[from]));
        assert(responses[1] == ResponseView::Written(results[from]));
        assert(responses.skip(1).skip(1) == later);
        assert(responses.skip(1)[0] == responses[1]);
        let sent = w.step(WatchView::Reading { index: from as usize }, responses[0]);
        assert(sent == w.publication(handle, from, values[from]));
        let turned = w.step(WatchView::Sending { index: from as usize }, responses[1]);
        assert(turned == turn_to(w.file_monitors, from + 1));
        let tail = w.run(turned, later);
        assert(w.run(sent, responses.skip(1)) == seq![turned] + tail);
        assert(steps == seq![sent] + (seq![turned] + tail));
        lemma_monitors_from(w, handle, values, results, from + 1);
        assert forall|i: int| from <= i < w.file_monitors.len() implies #[trigger] steps[2 * (i
            - from)] == w.publication(handle, i, values[i]) by {
            if i > from {
                assert(steps[2 * (i - from)] == tail[2 * (i - (from + 1))]);
            }
        }
        assert forall|i: int| from <= i < w.file_monitors.len() implies #[trigger] steps[2 * (i
            - from) + 1] == turn_to(w.file_monitors, i + 1) by {
            if i > from {
                assert(steps[2 * (i - from) + 1] == tail[2 * (i - (from + 1)) + 1]);
            }
        }
    } else {
        assert(responses.len() == 0);
    }
}

/// In a round on a live connection, every monitor is published exactly
/// once, in the list's order, and all of them before the mount point's
/// turn.
///
/// The round's steps alternate: step `2 i` asks for the frame of monitor
/// `i` to be written, with the value read for it, and step `2 i + 1` turns
/// to monitor `i + 1`, or to the listing of the mounted file systems after
/// the last. This holds whatever the values are and whether the writes
/// succeed or fail, as long as no write shows the connection to be gone
/// and each value fits into a frame.
pub proof fn lemma_each_monitor_published_once(
    w: Watches,
    handle: u64,
    values: Seq<Option<Seq<char>>>,
    results: Seq<Result<(), TransportErrorKind>>,
)
    requires
        w.server.state == (ConnectionState::Connected { handle }),
        w.file_monitors.len() <= usize::MAX,
        unhindered(w.file_monitors, values, results),
    ensures
        ({
            let steps = w.run(w.begin(), metric_responses(values, results));
            &&& steps.len() == 2 * w.file_monitors.len()
            &&& forall|i: int|
                0 <= i < w.file_monitors.len() ==> #[trigger] steps[2 * i] == w.publication(
                    handle,
                    i,
                    values[i],
                )
            &&& forall|i: int|
                0 <= i < w.file_monitors.len() ==> #[trigger] steps[2 * i + 1] == turn_to(
                    w.file_monitors,
                    i + 1,
                )
            &&& turn_to(w.file_monitors, w.file_monitors.len() as int) == listing()
        }),
{
    assert(values.skip(0) == values);
    assert(results.skip(0) == results);
    lemma_monitors_from(w, handle, values, results, 0);
    let steps = w.run(w.begin(), metric_responses(values, results));
    assert forall|i: int| 0 <= i < w.file_monitors.len() implies #[trigger] steps[2 * i]
        == w.publication(handle, i, values[i]) by {
        assert(steps[2 * (i - 0)] == w.publication(handle, i, values[i]));
    }
    assert forall|i: int| 0 <= i < w.file_monitors.len() implies #[trigger] steps[2 * i + 1]
        == turn_to(w.file_monitors, i + 1) by {
        assert(steps[2 * (i - 0) + 1] == turn_to(w.file_monitors, i + 1));
    }
}

/// The step that asks for the mounted file systems to be listed.
pub open spec fn listing() -> WatchStepView {
    WatchStepView::Pending { progress: WatchView::Listing, request: RequestView::ListMounts }
}

/// The responses to a round's work on the mount point: the table, then
/// what the writes of the three figures came to.
pub open spec fn mount_responses(
    table: Seq<MountInfoView>,
    results: Seq<Result<(), TransportErrorKind>>,
) -> Seq<ResponseView> {
    seq![
        ResponseView::Mounts(Some(table)),
        ResponseView::Written(results[0]),
        ResponseView::Written(results[1]),
        ResponseView::Written(results[2]),
    ]
}

/// The figures fit into frames and no write shows the connection to be
/// gone: what it takes for a round to publish the mount point.
pub open spec fn figures_unhindered(
    prefix: Seq<char>,
    info: MountInfoView,
    results: Seq<Result<(), TransportErrorKind>>,
) -> bool {
    &&& frame_fits(used_topic(prefix), encode_utf8(info.used))
    &&& frame_fits(size_topic(prefix), encode_utf8(info.size))
    &&& frame_fits(usage_topic(prefix), decimal_digits(info.usage as nat))
    &&& results.len() == 3
    &&& forall|i: int|
        0 <= i < 3 ==> #[trigger] results[i] != Err::<(), TransportErrorKind>(
            TransportErrorKind::ConnectionReset,
        )
}

/// The steps that publish the figures of `info` on the transport `handle`:
/// used space, size and usage, and then the round's end.
pub open spec fn mount_steps(prefix: Seq<char>, handle: u64, info: MountInfoView) -> Seq<
    WatchStepView,
> {
    seq![
        publishing(
            handle,
            used_topic(prefix),
            encode_utf8(info.used),
            WatchView::SendingUsed { size: info.size, usage: info.usage },
        ),
        publishing(
            handle,
            size_topic(prefix),
            encode_utf8(info.size),
            WatchView::SendingSize { usage: info.usage },
        ),
        publishing(
            handle,
            usage_topic(prefix),
            decimal_digits(info.usage as nat),
            WatchView::SendingUsage,
        ),
        finished(),
    ]
}

/// Once the mounted file systems are listed, on a live connection, the
/// watched mount point's used space, size and usage are published, each
/// once and in this order, and with the last of them the round ends
/// without an error.
///
/// This holds whether the writes succeed or fail, as long as none shows
/// the connection to be gone and each figure fits into a frame.
pub proof fn lemma_mount_figures_in_order(
    w: Watches,
    handle: u64,
    table: Seq<MountInfoView>,
    info: MountInfoView,
    results: Seq<Result<(), TransportErrorKind>>,
)
    requires
        w.server.state == (ConnectionState::Connected { handle }),
        mount_entry(table, w.mount_monitor) == Some(info),
        figures_unhindered(w.mount_monitor_topic, info, results),
    ensures
        w.run(listing(), mount_responses(table, results)) == mount_steps(
            w.mount_monitor_topic,
            handle,
            info,
        ),
{
    let responses = mount_responses(table, results);
    let used = w.step(WatchView::Listing, responses[0]);
    let size = w.step(
        WatchView::SendingUsed { size: info.size, usage: info.usage },
        responses[1],
    );
    let usage = w.step(WatchView::SendingSize { usage: info.usage }, responses[2]);
    let end = w.step(WatchView::SendingUsage, responses[3]);
    let after_used = responses.skip(1);
    let after_size = after_used.skip(1);
    let after_usage = after_size.skip(1);
    assert(after_used[0] == responses[1]);
    assert(after_size[0] == responses[2]);
    assert(after_usage[0] == responses[3]);
    assert(after_usage.skip(1).len() == 0);
    assert(w.run(end, after_usage.skip(1)) == Seq::<WatchStepView>::empty());
    assert(w.run(usage, after_usage) == seq![end]);
    assert(w.run(size, after_size) == seq![usage, end]);
    assert(w.run(used, after_used) == seq![size, usage, end]);
    assert(w.run(listing(), responses) == seq![used, size, usage, end]);
}

/// The step from which a round goes on after `steps`, which it took from
/// `step` on.
pub open spec fn reached(step: WatchStepView, steps: Seq<WatchStepView>) -> WatchStepView {
    if steps.len() > 0 {
        steps.last()
    } else {
        step
    }
}

/// The steps of a round in answer to responses that come in two parts are
/// those in answer to the first part, and then those in answer to the
/// second, from where the first part has led.
pub proof fn lemma_run_in_parts(
    w: Watches,
    step: WatchStepView,
    first: Seq<ResponseView>,
    then: Seq<ResponseView>,
)
    ensures
        w.run(step, first + then) == w.run(step, first) + w.run(
            reached(step, w.run(step, first)),
            then,
        ),
    decreases first.len(),
{
    if first.len() == 0 {
        assert(first + then == then);
        assert(w.run(step, first) == Seq::<WatchStepView>::empty());
        assert(Seq::<WatchStepView>::empty() + w.run(step, then) == w.run(step, then));
    } else {
        match step {
            WatchStepView::Pending { progress, request } => {
                let next = w.step(progress, first[0]);
                assert((first + then)[0] == first[0]);
                assert((first + then).skip(1) == first.skip(1) + then);
                lemma_run_in_parts(w, next, first.skip(1), then);
                let tail = w.run(next, first.skip(1));
                assert(w.run(step, first) == seq![next] + tail);
                assert(reached(step, seq![next] + tail) == reached(next, tail)) by {
                    if tail.len() > 0 {
                        assert((seq![next] + tail).last() == tail.last());
                    } else {
                        assert(seq![next] + tail == seq![next]);
                    }
                }
                assert(w.run(step, first + then) == seq![next] + (tail + w.run(
                    reached(next, tail),
                    then,
                )));
                assert(seq![next] + (tail + w.run(reached(next, tail), then)) == (seq![next]
                    + tail) + w.run(reached(next, tail), then));
            },
            WatchStepView::Finished { outcome } => {
                assert(w.run(step, first) == Seq::<WatchStepView>::empty());
                assert(w.run(step, first + then) == Seq::<WatchStepView>::empty());
                assert(w.run(step, then) == Seq::<WatchStepView>::empty());
                assert(Seq::<WatchStepView>::empty() + Seq::<WatchStepView>::empty()
                    == Seq::<WatchStepView>::empty());
            },
        }
    }
}

/// A whole round on a live connection publishes every monitor once, in
/// the list's order, and after them the watched mount point's used space,
/// size and usage, and ends without an error.
///
/// Of the round's steps, step `2 i` asks for the frame of monitor `i` to
/// be written, the four steps after the monitors' are those of the mount
/// point, and there is no step after them. A value that could not be read
/// is among the values as `None`, and is published as `0` like any other.
/// This holds whether the writes succeed or fail, as long as none shows
/// the connection to be gone and each value and figure fits into a frame.
pub proof fn lemma_round_in_order(
    w: Watches,
    handle: u64,
    values: Seq<Option<Seq<char>>>,
    results: Seq<Result<(), TransportErrorKind>>,
    table: Seq<MountInfoView>,
    info: MountInfoView,
    mount_results: Seq<Result<(), TransportErrorKind>>,
)
    requires
        w.server.state == (ConnectionState::Connected { handle }),
        w.file_monitors.len() <= usize::MAX,
        unhindered(w.file_monitors, values, results),
        mount_entry(table, w.mount_monitor) == Some(info),
        figures_unhindered(w.mount_monitor_topic, info, mount_results),
    ensures
        ({
            let count = w.file_monitors.len() as int;
            let steps = w.run(
                w.begin(),
                metric_responses(values, results) + mount_responses(table, mount_results),
            );
            &&& steps.len() == 2 * count + 4
            &&& forall|i: int|
                0 <= i < count ==> #[trigger] steps[2 * i] == w.publication(handle, i, values[i])
            &&& forall|i: int|
                0 <= i < count ==> #[trigger] steps[2 * i + 1] == turn_to(w.file_monitors, i + 1)
            &&& steps.subrange(2 * count, 2 * count + 4) == mount_steps(
                w.mount_monitor_topic,
                handle,
                info,
            )
            &&& steps.last() == finished()
        }),
{
    let count = w.file_monitors.len() as int;
    let first = metric_responses(values, results);
    let then = mount_responses(table, mount_results);
    let monitors = w.run(w.begin(), first);
    lemma_each_monitor_published_once(w, handle, values, results);
    lemma_run_in_parts(w, w.begin(), first, then);
    assert(reached(w.begin(), monitors) == listing()) by {
        if count > 0 {
            assert(monitors[2 * (count - 1) + 1] == turn_to(w.file_monitors, (count - 1) + 1));
        }
    }
    lemma_mount_figures_in_order(w, handle, table, info, mount_results);
    let figures = mount_steps(w.mount_monitor_topic, handle, info);
    let steps = monitors + figures;
    assert(steps.subrange(2 * count, 2 * count + 4) == figures);
    assert forall|i: int| 0 <= i < count implies #[trigger] steps[2 * i] == w.publication(
        handle,
        i,
        values[i],
    ) by {
        assert(steps[2 * i] == monitors[2 * i]);
    }
    assert forall|i: int| 0 <= i < count implies #[trigger] steps[2 * i + 1] == turn_to(
        w.file_monitors,
        i + 1,
    ) by {
        assert(steps[2 * i + 1] == monitors[2 * i + 1]);
    }
    assert(steps.last() == figures[3]);
}

/// A value that could not be read is published as `0`, on a live
/// connection, and is no error of the round: the monitor's frame is asked
/// for like any other, and the round goes on from there.
pub proof fn lemma_unread_value_is_zero(
    w: Watches,
    handle: u64,
    index: usize,
    response: ResponseView,
)
    requires
        w.server.state == (ConnectionState::Connected { handle }),
        index < w.file_monitors.len(),
        topic_valid(w.file_monitors[index as int].topic),
        value_read(response) is None,
    ensures
        w.step(WatchView::Reading { index }, response) == publishing(
            handle,
            w.file_monitors[index as int].topic,
            seq![0x30u8],
            WatchView::Sending { index },
        ),
{
}

/// A round ends in an error only where a publication has shown the
/// connection to be gone; and once a round has ended, nothing more is
/// asked for it, whatever responses follow.
pub proof fn lemma_round_ends_on_loss(
    w: Watches,
    progress: WatchView,
    response: ResponseView,
    later: Seq<ResponseView>,
)
    ensures
        w.step(progress, response) matches WatchStepView::Finished { outcome: Err(error) }
            ==> error.connection_lost(),
        w.step(progress, response) is Finished ==> w.run(w.step(progress, response), later)
            == Seq::<WatchStepView>::empty(),
{
}

/// The step of [`turn_to`].
fn turn(file_monitors: &Vec<FileMonitor>, index: usize) -> (step: WatchStep)
    ensures
        step@ == turn_to(monitor_views(file_monitors@), index as int),
{
    if index < file_monitors.len() {
        let monitor = &file_monitors[index];
        WatchStep::Pending {
            progress: Watch::Reading { index },
            request: Request::ReadValue { file: monitor.file.clone(), index: monitor.index },
        }
    } else {
        WatchStep::Pending { progress: Watch::Listing, request: Request::ListMounts }
    }
}

/// Offers `message` to the manager for publication under `topic`. Gives
/// the step that follows, or `None` where the message cannot be sent
/// though the connection is there.
fn offer(server: &mut MQTTServer, topic: &str, message: Vec<u8>, then: Watch) -> (step: Option<
    WatchStep,
>)
    requires
        topic_valid(topic@),
    ensures
        *final(server) == *old(server),
        forall|otherwise: WatchStepView|
            #[trigger] send(old(server)@, topic@, message@, then@, otherwise) == match step {
                Some(step) => step@,
                None => otherwise,
            },
{
    match server.publish(topic, message) {
        Ok(outbound) => Some(
            WatchStep::Pending { progress: then, request: Request::Write(outbound) },
        ),
        Err(error) => if error.is_connection_lost() {
            Some(WatchStep::Finished { outcome: Err(error) })
        } else {
            None
        },
    }
}

/// The error by which a write has shown the connection to be gone, if it
/// has.
fn loss(response: &Response) -> (lost: Option<PublishError>)
    ensures
        forall|next: WatchStepView|
            #[trigger] written(response@, next) == match lost {
                Some(error) => WatchStepView::Finished { outcome: Err(error) },
                None => next,
            },
{
    let result = match response {
        Response::Written(result) => *result,
        _ => Err(TransportErrorKind::Other),
    };
    match MQTTServer::sent(result) {
        Err(error) => if error.is_connection_lost() {
            Some(error)
        } else {
            None
        },
        Ok(()) => None,
    }
}

fn publish_usage(server: &mut MQTTServer, mount_monitor_topic: &str, usage: u32) -> (step:
    WatchStep)
    requires
        topic_valid(usage_topic(mount_monitor_topic@)),
    ensures
        *final(server) == *old(server),
        step@ == send_usage(old(server)@, mount_monitor_topic@, usage),
{
    let topic = mount_monitor_topic.to_owned().concat("/usage");
    match offer(server, topic.as_str(), decimal(usage), Watch::SendingUsage) {
        Some(step) => step,
        None => WatchStep::Finished { outcome: Ok(()) },
    }
}

fn publish_size(
    server: &mut MQTTServer,
    mount_monitor_topic: &str,
    size: String,
    usage: u32,
) -> (step: WatchStep)
    requires
        topic_valid(size_topic(mount_monitor_topic@)),
        topic_valid(usage_topic(mount_monitor_topic@)),
    ensures
        *final(server) == *old(server),
        step@ == send_size(old(server)@, mount_monitor_topic@, size@, usage),
{
    let topic = mount_monitor_topic.to_owned().concat("/size");
    let message = size.as_str().as_bytes_vec();
    match offer(server, topic.as_str(), message, Watch::SendingSize { usage }) {
        Some(step) => step,
        None => publish_usage(server, mount_monitor_topic, usage),
    }
}

fn publish_used(
    server: &mut MQTTServer,
    mount_monitor_topic: &str,
    used: String,
    size: String,
    usage: u32,
) -> (step: WatchStep)
    requires
        topic_valid(used_topic(mount_monitor_topic@)),
        topic_valid(size_topic(mount_monitor_topic@)),
        topic_valid(usage_topic(mount_monitor_topic@)),
    ensures
        *final(server) == *old(server),
        step@ == send_used(old(server)@, mount_monitor_topic@, used@, size@, usage),
{
    let topic = mount_monitor_topic.to_owned().concat("/used");
    let message = used.as_str().as_bytes_vec();
    let then = Watch::SendingUsed { size: size.clone(), usage };
    match offer(server, topic.as_str(), message, then) {
        Some(step) => step,
        None => publish_size(server, mount_monitor_topic, size, usage),
    }
}

/// The message of a value read.
fn payload(response: Response) -> (message: Vec<u8>)
    ensures
        message@ == value_payload(value_read(response@)),
{
    match response {
        Response::Value(Some(text)) => text.as_str().as_bytes_vec(),
        _ => {
            let mut zero: Vec<u8> = Vec::new();
            zero.push(0x30u8);
            assert(zero@ == seq![0x30u8]);
            zero
        },
    }
}

/// The first step of a round: the request for the first monitor's value,
/// or for the mount table where there are no monitors.
pub fn begin_watches(file_monitors: &Vec<FileMonitor>) -> (step: WatchStep)
    ensures
        step@ == turn_to(monitor_views(file_monitors@), 0),
{
    turn(file_monitors, 0)
}

/// One step of a round: takes the response to the request of the step
/// before and says what to ask next, or how the round ended. The manager
/// stays as it is.
pub fn send_watches(
    server: &mut MQTTServer,
    file_monitors: &Vec<FileMonitor>,
    mount_monitor: &str,
    mount_monitor_topic: &str,
    progress: Watch,
    response: Response,
) -> (step: WatchStep)
    requires
        topics_valid(monitor_views(file_monitors@), mount_monitor_topic@),
    ensures
        *final(server) == *old(server),
        step@ == watches(old(server)@, file_monitors@, mount_monitor@, mount_monitor_topic@).step(
            progress@,
            response@,
        ),
{
    match progress {
        Watch::Reading { index } => {
            if index < file_monitors.len() {
                let monitor = &file_monitors[index];
                assert(monitor_views(file_monitors@)[index as int] == monitor@);
                let message = payload(response);
                match offer(server, monitor.topic.as_str(), message, Watch::Sending { index }) {
                    Some(step) => step,
                    None => turn(file_monitors, index + 1),
                }
            } else {
                turn(file_monitors, index)
            }
        },
        Watch::Sending { index } => match loss(&response) {
            Some(error) => WatchStep::Finished { outcome: Err(error) },
            None => {
                // Past the last monitor every index leads to the listing.
                let next = if index < file_monitors.len() {
                    index + 1
                } else {
                    index
                };
                turn(file_monitors, next)
            },
        },
        Watch::Listing => match response {
            Response::Mounts(Some(table)) => match table.find(mount_monitor) {
                Some(at) => {
                    let info = &table.mounts[at];
                    assert(table@[at as int] == info@);
                    publish_used(
                        server,
                        mount_monitor_topic,
                        info.used.clone(),
                        info.size.clone(),
                        info.usage,
                    )
                },
                None => WatchStep::Finished { outcome: Ok(()) },
            },
            _ => WatchStep::Finished { outcome: Ok(()) },
        },
        Watch::SendingUsed { size, usage } => match loss(&response) {
            Some(error) => WatchStep::Finished { outcome: Err(error) },
            None => publish_size(server, mount_monitor_topic, size, usage),
        },
        Watch::SendingSize { usage } => match loss(&response) {
            Some(error) => WatchStep::Finished { outcome: Err(error) },
            None => publish_usage(server, mount_monitor_topic, usage),
        },
        Watch::SendingUsage => match loss(&response) {
            Some(error) => WatchStep::Finished { outcome: Err(error) },
            None => WatchStep::Finished { outcome: Ok(()) },
        },
    }
}

} // verus!
