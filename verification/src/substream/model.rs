//! The substream as contracts see it: the state, what each step does to it,
//! and what follows from that.
//!
//! Everything here is specification and proof. Frames are sequences of
//! bytes, queues are sequences, and nothing depends on a channel or on the
//! network.

use crate::buffer::{conserved, is_tail_of, lemma_tail_refl, lemma_tail_trans, SendResult};
use crate::channel::{Polled, Priority};
use crate::context::SessionContextView;
use crate::error::TransportErrorView;
use crate::frame::octets;
use crate::protocol_handle_stream::{
    ServiceProtocolEvent, ServiceProtocolEventView, SessionProtocolEvent,
    SessionProtocolEventView,
};
use crate::substream::{EventStep, Progress, ProtocolEvent, Reply, SessionConfig, Stage};
use crate::{ProtocolId, StreamId};
use bytes::Bytes;
use vstd::prelude::*;

verus! {

/// A [`ProtocolEvent`] with its data as plain sequences.
#[allow(inconsistent_fields)]
pub enum ProtocolEventView {
    Open { proto_name: Seq<char>, version: Seq<char> },
    Close { id: StreamId, proto_id: ProtocolId },
    Message { id: StreamId, proto_id: ProtocolId, data: Seq<u8> },
    SelectError { proto_name: Option<Seq<char>> },
    Error { id: StreamId, proto_id: ProtocolId, error: TransportErrorView },
    TimeoutCheck,
}

/// An [`OfferReply`] with its data as plain sequences.
pub enum OfferReplyView {
    Accepted,
    Refused,
    Failed(TransportErrorView),
}

/// A [`FlushReply`] with its data as plain sequences.
pub enum FlushReplyView {
    Flushed,
    Pending,
    Failed(TransportErrorView),
}

/// A [`SinkReply`] with its data as plain sequences.
pub enum SinkReplyView {
    Offer(OfferReplyView),
    Flush(FlushReplyView),
}

/// A [`FrameReply`] with its data as plain sequences.
pub enum FrameReplyView {
    Frame(Seq<u8>),
    Rejected(TransportErrorView),
    Eof,
    NoFrame,
    Failed(TransportErrorView),
}

/// A [`Reply`] with its data as plain sequences.
pub enum ReplyView {
    Sink(SinkReplyView),
    Stream(FrameReplyView),
}

/// A [`SendStep`] with its data as plain sequences.
pub enum SendStepView {
    Offer(Seq<u8>),
    Flush,
    Done,
    Failed(TransportErrorView),
}

/// A [`FrameStep`] with its data as plain sequences.
pub enum FrameStepView {
    Read,
    Settled(Progress),
    Closed(TeardownView),
}

/// What a [`Teardown`] holds for each receiver, without the channel handles.
pub struct TeardownView {
    pub service: Option<Seq<ServiceProtocolEventView>>,
    pub session: Option<Seq<SessionProtocolEventView>>,
    pub upward: Option<Seq<ProtocolEventView>>,
}

/// An [`Outcome`] with its data as plain sequences.
pub enum OutcomeView {
    Pending,
    Ready,
    Closed(TeardownView),
}

/// A [`Request`] with its data as plain sequences.
pub enum RequestView {
    Offer(Seq<u8>),
    Flush,
    Read,
    Finish(OutcomeView),
}

/// The bytes that have passed through a substream's write buffers.
pub struct Ledger {
    /// Bytes of all frames ever queued for writing.
    pub enqueued: nat,
    /// Bytes of all frames that the sink has taken; these have been taken
    /// off the session's count of waiting bytes.
    pub released: nat,
    /// Bytes of all frames that were given up unsent.
    pub dropped: nat,
}

/// The state of a substream, as contracts see it.
pub struct SubstreamView {
    pub id: StreamId,
    pub proto_id: ProtocolId,
    pub session: SessionContextView,
    /// Whether received frames are also reported to the session.
    pub event: bool,
    /// Whether events for the session survive the substream's end.
    pub keep_buffer: bool,
    pub config: SessionConfig,
    pub dead: bool,
    /// Frames to write with priority, oldest first.
    pub high: Seq<Seq<u8>>,
    /// Frames to write, oldest first.
    pub normal: Seq<Seq<u8>>,
    /// The frame that has been offered to the sink and not answered yet.
    pub in_flight: Option<(Priority, Seq<u8>)>,
    /// Events that wait for the session, oldest first.
    pub upward: Seq<ProtocolEventView>,
    /// Events that wait for the service-level handler, if there is one.
    pub service: Option<Seq<ServiceProtocolEventView>>,
    /// Events that wait for the session-level handler, if there is one.
    pub session_events: Option<Seq<SessionProtocolEventView>>,
    /// Events that the session's channel has taken, oldest first.
    pub upward_handed: Seq<ProtocolEventView>,
    /// Events that the service-level handler's channel has taken; none
    /// where there is no such handler.
    pub service_handed: Seq<ServiceProtocolEventView>,
    /// Events that the session-level handler's channel has taken; none
    /// where there is no such handler.
    pub session_handed: Seq<SessionProtocolEventView>,
    pub stage: Stage,
    /// Whether reading the framed stream had nothing to do in this cycle.
    pub frame_pending: bool,
    pub ledger: Ledger,
}

/// What the builder has been told so far.
pub struct SubstreamBuilderView {
    pub id: StreamId,
    pub proto_id: ProtocolId,
    pub session: SessionContextView,
    pub event: bool,
    pub keep_buffer: bool,
    pub config: SessionConfig,
    pub service: Option<Seq<ServiceProtocolEventView>>,
    pub session_events: Option<Seq<SessionProtocolEventView>>,
    /// What the channel of the service-level handler's buffer has taken.
    pub service_handed: Seq<ServiceProtocolEventView>,
    /// What the channel of the session-level handler's buffer has taken.
    pub session_handed: Seq<SessionProtocolEventView>,
}

/// The substream that a builder makes: alive, between cycles, with nothing
/// to write and nothing waiting for the session.
pub open spec fn built(b: SubstreamBuilderView) -> SubstreamView {
    SubstreamView {
        id: b.id,
        proto_id: b.proto_id,
        session: b.session,
        event: b.event,
        keep_buffer: b.keep_buffer,
        config: b.config,
        dead: false,
        high: Seq::empty(),
        normal: Seq::empty(),
        in_flight: None,
        upward: Seq::empty(),
        service: b.service,
        session_events: b.session_events,
        upward_handed: Seq::empty(),
        service_handed: b.service_handed,
        session_handed: b.session_handed,
        stage: Stage::Idle,
        frame_pending: false,
        ledger: Ledger { enqueued: 0, released: 0, dropped: 0 },
    }
}

/// The frames of a write buffer, each as its bytes.
pub open spec fn frames(queue: Seq<Bytes>) -> Seq<Seq<u8>> {
    queue.map_values(|frame: Bytes| octets(frame))
}

/// The events of a buffer for the session, as contracts see them.
pub open spec fn upward_events(queue: Seq<ProtocolEvent>) -> Seq<ProtocolEventView> {
    queue.map_values(|event: ProtocolEvent| event@)
}

/// The events of a buffer for a service-level handler, as contracts see
/// them.
pub open spec fn service_events(queue: Seq<ServiceProtocolEvent>) -> Seq<
    ServiceProtocolEventView,
> {
    queue.map_values(|event: ServiceProtocolEvent| event@)
}

/// The events of a buffer for a session-level handler, as contracts see
/// them.
pub open spec fn session_events(queue: Seq<SessionProtocolEvent>) -> Seq<
    SessionProtocolEventView,
> {
    queue.map_values(|event: SessionProtocolEvent| event@)
}

/// The frames that wait to be written, in the order in which they will be
/// offered: the one in flight, then the high lane, then the normal lane.
pub open spec fn write_order(v: SubstreamView) -> Seq<Seq<u8>> {
    match v.in_flight {
        Some((_, frame)) => seq![frame] + v.high + v.normal,
        None => v.high + v.normal,
    }
}

/// The sum of the lengths of the frames in `queue`.
pub open spec fn total_len(queue: Seq<Seq<u8>>) -> nat
    decreases queue.len(),
{
    if queue.len() == 0 {
        0
    } else {
        queue[0].len() + total_len(queue.skip(1))
    }
}

/// The bytes that wait in a substream's write buffers.
pub open spec fn waiting(v: SubstreamView) -> nat {
    total_len(write_order(v))
}

/// Every byte that was queued has been released, given up, or still waits.
pub open spec fn balanced(v: SubstreamView) -> bool {
    v.ledger.enqueued == v.ledger.released + v.ledger.dropped + waiting(v)
}

/// The state with `frame` back at the front of its lane.
pub open spec fn restored(v: SubstreamView, priority: Priority, frame: Seq<u8>)
    -> SubstreamView {
    match priority {
        Priority::High => SubstreamView { high: seq![frame] + v.high, ..v },
        Priority::Normal => SubstreamView { normal: seq![frame] + v.normal, ..v },
    }
}

/// The state after `bytes` more bytes have been queued.
pub open spec fn charged(v: SubstreamView, bytes: nat) -> SubstreamView {
    SubstreamView { ledger: Ledger { enqueued: v.ledger.enqueued + bytes, ..v.ledger }, ..v }
}

/// The state after `bytes` bytes have been handed to the sink.
pub open spec fn discharged(v: SubstreamView, bytes: nat) -> SubstreamView {
    SubstreamView { ledger: Ledger { released: v.ledger.released + bytes, ..v.ledger }, ..v }
}

/// The state after `bytes` bytes have been given up.
pub open spec fn written_off(v: SubstreamView, bytes: nat) -> SubstreamView {
    SubstreamView { ledger: Ledger { dropped: v.ledger.dropped + bytes, ..v.ledger }, ..v }
}

/// The state after a new `frame` has been put at the front of its lane.
pub open spec fn pushed_front(v: SubstreamView, priority: Priority, frame: Seq<u8>)
    -> SubstreamView {
    charged(restored(v, priority, frame), frame.len())
}

/// The state after a new `frame` has been put at the back of its lane.
pub open spec fn pushed_back(v: SubstreamView, priority: Priority, frame: Seq<u8>)
    -> SubstreamView {
    match priority {
        Priority::High => charged(SubstreamView { high: v.high.push(frame), ..v }, frame.len()),
        Priority::Normal => charged(
            SubstreamView { normal: v.normal.push(frame), ..v },
            frame.len(),
        ),
    }
}

/// Picks the next frame to offer: the oldest high frame if there is one, else
/// the oldest normal frame. With both lanes empty the sink is flushed.
pub open spec fn offered_next(v: SubstreamView) -> (SubstreamView, SendStepView) {
    if v.high.len() > 0 {
        (
            SubstreamView {
                high: v.high.skip(1),
                in_flight: Some((Priority::High, v.high[0])),
                ..v
            },
            SendStepView::Offer(v.high[0]),
        )
    } else if v.normal.len() > 0 {
        (
            SubstreamView {
                normal: v.normal.skip(1),
                in_flight: Some((Priority::Normal, v.normal[0])),
                ..v
            },
            SendStepView::Offer(v.normal[0]),
        )
    } else {
        (v, SendStepView::Flush)
    }
}

/// Whether `reply` answers what the writing last asked of the sink: nothing
/// before it began, an offer while a frame is in flight, a flush otherwise.
pub open spec fn answers_sink(v: SubstreamView, reply: Option<SinkReplyView>) -> bool {
    match reply {
        None => v.in_flight is None,
        Some(SinkReplyView::Offer(_)) => v.in_flight is Some,
        Some(SinkReplyView::Flush(_)) => v.in_flight is None,
    }
}

/// What an answer to an offer does to the frame in flight. The result tells
/// whether the sink was not ready.
///
/// An accepted frame is gone and its bytes are released. A refused frame
/// goes back to the front of its lane. A frame that the sink failed on is
/// given up.
pub open spec fn send_inner_model(v: SubstreamView, reply: OfferReplyView) -> (
    SubstreamView,
    Result<bool, TransportErrorView>,
) {
    let (priority, frame) = v.in_flight->0;
    let landed = SubstreamView { in_flight: None, ..v };
    match reply {
        OfferReplyView::Accepted => (discharged(landed, frame.len()), Ok(false)),
        OfferReplyView::Refused => (restored(landed, priority, frame), Ok(true)),
        OfferReplyView::Failed(error) => (written_off(landed, frame.len()), Err(error)),
    }
}

/// The bytes that an answer to an offer releases: those of the frame in
/// flight where the sink took it, none otherwise. These are the bytes to
/// take off the session's count of waiting bytes.
pub open spec fn released_by(v: SubstreamView, reply: OfferReplyView) -> nat {
    match reply {
        OfferReplyView::Accepted => (v.in_flight->0).1.len(),
        _ => 0,
    }
}

/// What an answer to a flush means: whether the sink still holds data.
pub open spec fn poll_complete_model(reply: FlushReplyView) -> Result<bool, TransportErrorView> {
    match reply {
        FlushReplyView::Pending => Ok(true),
        FlushReplyView::Flushed => Ok(false),
        FlushReplyView::Failed(error) => Err(error),
    }
}

/// One step of writing out, as a function of the state and of what the sink
/// answered (`None` to begin).
///
/// After an accepted frame the next one is offered. After a refused frame
/// the sink is flushed before anything is offered again. A flush that
/// completes lets the writing go on if frames are left; one that does not
/// ends it for now.
pub open spec fn send_data_model(v: SubstreamView, reply: Option<SinkReplyView>) -> (
    SubstreamView,
    SendStepView,
) {
    match reply {
        None => offered_next(v),
        Some(SinkReplyView::Offer(reply)) => {
            let (next, blocked) = send_inner_model(v, reply);
            match blocked {
                Ok(false) => offered_next(next),
                Ok(true) => (next, SendStepView::Flush),
                Err(error) => (next, SendStepView::Failed(error)),
            }
        },
        Some(SinkReplyView::Flush(reply)) => match poll_complete_model(reply) {
            Ok(true) => (v, SendStepView::Done),
            Ok(false) => if v.high.len() > 0 || v.normal.len() > 0 {
                offered_next(v)
            } else {
                (v, SendStepView::Done)
            },
            Err(error) => (v, SendStepView::Failed(error)),
        },
    }
}

/// Both absent, or both present with `rest` a tail of `whole`.
pub open spec fn is_opt_tail_of<T>(rest: Option<Seq<T>>, whole: Option<Seq<T>>) -> bool {
    match (rest, whole) {
        (Some(r), Some(w)) => is_tail_of(r, w),
        (None, None) => true,
        _ => false,
    }
}

/// `after` is `before` once some waiting events have been handed over, oldest
/// first, and the substream has perhaps found a receiver gone. Nothing else
/// differs.
pub open spec fn drained(before: SubstreamView, after: SubstreamView) -> bool {
    &&& after == SubstreamView {
        upward: after.upward,
        service: after.service,
        session_events: after.session_events,
        upward_handed: after.upward_handed,
        service_handed: after.service_handed,
        session_handed: after.session_handed,
        dead: after.dead,
        ..before
    }
    &&& delivered(before, after)
    &&& before.dead ==> after.dead
}

/// The state after an attempt to deliver ended with `result`: a receiver
/// that is gone ends the substream.
pub open spec fn noted(v: SubstreamView, result: SendResult) -> SubstreamView {
    SubstreamView { dead: v.dead || result == SendResult::Disconnect, ..v }
}

/// Whether nothing waits in a handler's buffer, or there is no such handler.
pub open spec fn served<T>(queue: Option<Seq<T>>) -> bool {
    queue matches Some(events) ==> events.len() == 0
}

/// The state with `event` queued for the session.
pub open spec fn reported(v: SubstreamView, event: ProtocolEventView) -> SubstreamView {
    SubstreamView { upward: v.upward.push(event), ..v }
}

/// What a command from the session does, and the first step of the writing
/// that it starts.
///
/// A message is queued behind its lane and written out at once. A close
/// request gives up the normal lane and ends the substream; the high lane
/// is still written. Anything else is ignored.
pub open spec fn handle_proto_event_model(
    v: SubstreamView,
    event: ProtocolEventView,
    priority: Priority,
) -> (SubstreamView, SendStepView) {
    match event {
        ProtocolEventView::Message { data, .. } => send_data_model(
            pushed_back(v, priority, data),
            None,
        ),
        ProtocolEventView::Close { .. } => (
            written_off(
                SubstreamView { normal: Seq::empty(), dead: true, ..v },
                total_len(v.normal),
            ),
            SendStepView::Done,
        ),
        _ => (v, SendStepView::Done),
    }
}

/// What the command channel gave, with a command's data as plain
/// sequences: a command (`Some(Some(..))`), the news that every sender is
/// gone (`Some(None)`), or nothing yet (`None`).
pub open spec fn polled_view(polled: Polled<(Priority, ProtocolEvent)>) -> Option<
    Option<(Priority, ProtocolEventView)>,
> {
    match polled {
        Polled::Item((priority, event)) => Some(Some((priority, event@))),
        Polled::Closed => Some(None),
        Polled::Pending => None,
    }
}

/// What the answer of the command channel does.
///
/// A command is acted on as [`handle_proto_event_model`] says. A channel
/// whose senders are all gone ends the substream. A channel with nothing to
/// read leaves everything as it is.
pub open spec fn on_command_model(
    v: SubstreamView,
    polled: Option<Option<(Priority, ProtocolEventView)>>,
) -> (SubstreamView, SendStepView, Progress) {
    match polled {
        Some(Some((priority, event))) => {
            let (next, step) = handle_proto_event_model(v, event, priority);
            (next, step, Progress::Advanced)
        },
        Some(None) => (SubstreamView { dead: true, ..v }, SendStepView::Done, Progress::Finished),
        None => (v, SendStepView::Done, Progress::Pending),
    }
}

/// Whether no frame is to be read, and why: a dead substream reads nothing,
/// and neither does one with more events waiting for the session than its
/// cap allows.
pub open spec fn frame_gate(v: SubstreamView) -> Option<Progress> {
    if v.dead {
        Some(Progress::Finished)
    } else if v.upward.len() > v.config.recv_event_size {
        Some(Progress::Pending)
    } else {
        None
    }
}

/// The state with one received frame queued for everyone who is to hear of
/// it: each handler, and the session where frames are reported to it.
pub open spec fn received(v: SubstreamView, data: Seq<u8>) -> SubstreamView {
    SubstreamView {
        service: match v.service {
            Some(queue) => Some(
                queue.push(ServiceProtocolEventView::Received { id: v.session.id, data }),
            ),
            None => None,
        },
        session_events: match v.session_events {
            Some(queue) => Some(queue.push(SessionProtocolEventView::Received { data })),
            None => None,
        },
        upward: if v.event {
            v.upward.push(
                ProtocolEventView::Message { id: v.id, proto_id: v.proto_id, data },
            )
        } else {
            v.upward
        },
        ..v
    }
}

/// The same buffers, with nothing waiting in them.
pub open spec fn emptied<T>(queue: Option<Seq<T>>) -> Option<Seq<T>> {
    match queue {
        Some(_) => Some(Seq::empty()),
        None => None,
    }
}

/// What a teardown hands to the runtime, and what it leaves behind.
///
/// Every handler gets what still waited for it, followed by its farewell:
/// `Disconnected` for the service-level handler; `Closed` for the
/// session-level handler, and `Disconnected` after it if the session itself
/// is closing. While the session lives it gets what waited for it followed
/// by `Close`. A closing session is only offered what waits.
pub open spec fn torn_down(
    before: SubstreamView,
    after: SubstreamView,
    teardown: TeardownView,
    session_closed: bool,
) -> bool {
    &&& teardown.service == match before.service {
        Some(queue) => Some(
            queue.push(ServiceProtocolEventView::Disconnected { id: before.session.id }),
        ),
        None => None,
    }
    &&& teardown.session == match before.session_events {
        Some(queue) => Some(
            if session_closed {
                queue.push(SessionProtocolEventView::Closed).push(
                    SessionProtocolEventView::Disconnected,
                )
            } else {
                queue.push(SessionProtocolEventView::Closed)
            },
        ),
        None => None,
    }
    &&& if session_closed {
        &&& teardown.upward is None
        &&& is_tail_of(after.upward, before.upward)
        &&& conserved(after.upward_handed, after.upward, before.upward_handed, before.upward)
        &&& before.dead ==> after.dead
    } else {
        &&& teardown.upward == Some(
            before.upward.push(
                ProtocolEventView::Close { id: before.id, proto_id: before.proto_id },
            ),
        )
        &&& after.upward.len() == 0
        &&& after.upward_handed == before.upward_handed
        &&& after.dead == before.dead
    }
    &&& after == SubstreamView {
        service: emptied(before.service),
        session_events: emptied(before.session_events),
        upward: after.upward,
        upward_handed: after.upward_handed,
        dead: after.dead,
        stage: Stage::Finished,
        ..before
    }
}

/// The state in which a failure is reported: the substream is dead, and the
/// error is queued for the session behind what waits, or alone where
/// waiting events are not kept.
pub open spec fn failed(v: SubstreamView, error: TransportErrorView) -> SubstreamView {
    SubstreamView {
        dead: true,
        upward: (if v.keep_buffer {
            v.upward
        } else {
            Seq::empty()
        }).push(ProtocolEventView::Error { id: v.id, proto_id: v.proto_id, error }),
        ..v
    }
}

/// A teardown on a failure: the error is reported, then the substream
/// closes.
pub open spec fn error_closed(
    before: SubstreamView,
    after: SubstreamView,
    teardown: TeardownView,
    error: TransportErrorView,
    session_closed: bool,
) -> bool {
    torn_down(failed(before, error), after, teardown, session_closed)
}

/// Whether `reported_state` is a state in which a write that failed with
/// `error` has been reported: the substream is dead, and the error has been
/// queued for the session behind what waited and offered to it.
pub open spec fn write_failed(
    before: SubstreamView,
    error: TransportErrorView,
    reported_state: SubstreamView,
) -> bool {
    &&& drained(
        reported(
            before,
            ProtocolEventView::Error { id: before.id, proto_id: before.proto_id, error },
        ),
        reported_state,
    )
    &&& reported_state.dead
}

/// Every handler that the substream serves is told exactly once, as the
/// last thing it hears, that the protocol is over, and nothing is left
/// waiting for it in the substream.
pub open spec fn farewell(teardown: TeardownView, v: SubstreamView) -> bool {
    &&& teardown.service is Some <==> v.service is Some
    &&& teardown.service matches Some(queue) ==> {
        &&& queue.len() > 0
        &&& queue.last() == ServiceProtocolEventView::Disconnected { id: v.session.id }
        &&& v.service == Some(Seq::<ServiceProtocolEventView>::empty())
    }
    &&& teardown.session is Some <==> v.session_events is Some
    &&& teardown.session matches Some(queue) ==> {
        &&& queue.len() > 0
        &&& {
            ||| queue.last() == SessionProtocolEventView::Closed
            ||| {
                &&& queue.len() > 1
                &&& queue.last() == SessionProtocolEventView::Disconnected
                &&& queue[queue.len() - 2] == SessionProtocolEventView::Closed
            }
        }
        &&& v.session_events == Some(Seq::<SessionProtocolEventView>::empty())
    }
    &&& teardown.upward matches Some(queue) ==> {
        &&& queue.len() > 0
        &&& queue.last() == ProtocolEventView::Close { id: v.id, proto_id: v.proto_id }
        &&& v.upward.len() == 0
    }
}

/// Whether the three event queues of `after` are what is left of those of
/// `before` once some events have been handed over, oldest first.
///
/// Nothing is lost on the way: for each receiver, what its channel has
/// taken and what still waits are, taken together, what they were.
pub open spec fn delivered(before: SubstreamView, after: SubstreamView) -> bool {
    &&& is_tail_of(after.upward, before.upward)
    &&& is_opt_tail_of(after.service, before.service)
    &&& is_opt_tail_of(after.session_events, before.session_events)
    &&& conserved(after.upward_handed, after.upward, before.upward_handed, before.upward)
    &&& opt_conserved(after.service_handed, after.service, before.service_handed, before.service)
    &&& opt_conserved(
        after.session_handed,
        after.session_events,
        before.session_handed,
        before.session_events,
    )
}

/// [`conserved`] for a handler that may not be there: with no handler
/// nothing waits and nothing is handed over.
pub open spec fn opt_conserved<T>(
    handed_after: Seq<T>,
    after: Option<Seq<T>>,
    handed_before: Seq<T>,
    before: Option<Seq<T>>,
) -> bool {
    match (after, before) {
        (Some(a), Some(b)) => conserved(handed_after, a, handed_before, b),
        (None, None) => handed_after == handed_before,
        _ => false,
    }
}

/// Whether the three event queues are the same in both states.
pub open spec fn same_queues(before: SubstreamView, after: SubstreamView) -> bool {
    &&& after.upward == before.upward
    &&& after.service == before.service
    &&& after.session_events == before.session_events
    &&& after.upward_handed == before.upward_handed
    &&& after.service_handed == before.service_handed
    &&& after.session_handed == before.session_handed
}

/// The state in which the end of a cycle closes a substream: the events
/// that wait for the session are dropped unless they are to be kept.
pub open spec fn wound_up(v: SubstreamView) -> SubstreamView {
    SubstreamView {
        upward: if v.keep_buffer {
            v.upward
        } else {
            Seq::empty()
        },
        ..v
    }
}

/// How a cycle ends, given whether the session was found closing.
///
/// It closes the substream exactly if the substream is dead or the session
/// is closing. Else the substream rests until woken if neither side had
/// anything to do (`pending`), and asks to be polled again if one had.
pub open spec fn finished(
    before: SubstreamView,
    pending: bool,
    session_closed: bool,
    after: SubstreamView,
    request: RequestView,
) -> bool {
    match request {
        RequestView::Finish(OutcomeView::Closed(teardown)) => {
            &&& before.dead || session_closed
            &&& torn_down(wound_up(before), after, teardown, session_closed)
        },
        RequestView::Finish(OutcomeView::Pending) => {
            &&& pending
            &&& !before.dead
            &&& !session_closed
            &&& after == SubstreamView { stage: Stage::Idle, ..before }
        },
        RequestView::Finish(OutcomeView::Ready) => {
            &&& !pending
            &&& !before.dead
            &&& !session_closed
            &&& after == SubstreamView { stage: Stage::Idle, ..before }
        },
        _ => false,
    }
}

/// Whether `request` ends the cycle by closing the substream.
pub open spec fn closes(request: RequestView) -> bool {
    request matches RequestView::Finish(OutcomeView::Closed(_))
}

/// What the runtime was last asked for and has not answered yet.
pub open spec fn outstanding(v: SubstreamView) -> Option<RequestView> {
    match v.stage {
        Stage::Flush | Stage::Command => Some(
            match v.in_flight {
                Some((_, frame)) => RequestView::Offer(frame),
                None => RequestView::Flush,
            },
        ),
        Stage::Frame => Some(RequestView::Read),
        _ => None,
    }
}

/// Whether `reply` answers what the runtime was last asked for. Between
/// cycles, and once the substream is over, nothing is asked and anything
/// goes.
pub open spec fn answers(v: SubstreamView, reply: Option<ReplyView>) -> bool {
    match v.stage {
        Stage::Flush | Stage::Command => match reply {
            Some(ReplyView::Sink(sink)) => answers_sink(v, Some(sink)),
            _ => false,
        },
        Stage::Frame => reply matches Some(ReplyView::Stream(_)),
        _ => true,
    }
}

/// Whether the state `v` is the one in which `request` is handed out.
///
/// The framed stream is read only while the substream lives and no more
/// events wait for the session than its cap allows. A cycle ends pending or
/// ready only while the substream lives.
pub open spec fn awaits(v: SubstreamView, request: RequestView) -> bool {
    match request {
        RequestView::Offer(frame) => {
            &&& v.stage == Stage::Flush || v.stage == Stage::Command
            &&& v.in_flight is Some
            &&& (v.in_flight->0).1 == frame
        },
        RequestView::Flush => {
            &&& v.stage == Stage::Flush || v.stage == Stage::Command
            &&& v.in_flight is None
        },
        RequestView::Read => {
            &&& v.stage == Stage::Frame
            &&& v.in_flight is None
            &&& frame_gate(v) is None
        },
        RequestView::Finish(OutcomeView::Closed(_)) => {
            &&& v.stage == Stage::Finished
            &&& v.in_flight is None
        },
        RequestView::Finish(_) => {
            &&& v.stage == Stage::Idle
            &&& v.in_flight is None
            &&& !v.dead
        },
    }
}

/// A step of the writing, as a request to the runtime.
pub open spec fn as_request(step: SendStepView) -> RequestView {
    match step {
        SendStepView::Offer(frame) => RequestView::Offer(frame),
        _ => RequestView::Flush,
    }
}

/// What never changes in a substream's life.
pub open spec fn same_substream(before: SubstreamView, after: SubstreamView) -> bool {
    &&& after.id == before.id
    &&& after.proto_id == before.proto_id
    &&& after.session == before.session
    &&& after.event == before.event
    &&& after.keep_buffer == before.keep_buffer
    &&& after.config == before.config
    &&& after.service is Some <==> before.service is Some
    &&& after.session_events is Some <==> before.session_events is Some
}

/// Whether nothing waits anywhere in the substream.
pub open spec fn quiet(v: SubstreamView) -> bool {
    &&& v.upward.len() == 0
    &&& v.high.len() == 0
    &&& v.normal.len() == 0
    &&& v.service matches Some(queue) ==> queue.len() == 0
    &&& v.session_events matches Some(queue) ==> queue.len() == 0
}

/// What holds after every step of a poll cycle, whatever the channels
/// answered, given whether the session was found closing.
///
/// A cycle does not end pending or ready while the session is closing, and
/// it closes a substream only if the session is closing or the substream
/// is dead.
pub open spec fn stepped(
    before: SubstreamView,
    session_closed: bool,
    after: SubstreamView,
    request: RequestView,
) -> bool {
    &&& awaits(after, request)
    &&& balanced(after)
    &&& same_substream(before, after)
    &&& before.dead ==> after.dead
    &&& request matches RequestView::Finish(OutcomeView::Closed(teardown)) ==> farewell(
        teardown,
        after,
    )
    &&& request is Finish && !closes(request) ==> !session_closed
    &&& closes(request) && !session_closed ==> after.dead
}

/// The first step of a cycle of a live substream whose session is open.
///
/// Waiting events are offered to their receivers first. If any frame
/// waits, writing begins: the oldest frame of the high lane is offered to
/// the sink, or the oldest of the normal lane where the high lane is empty.
/// Where only events wait, writing begins with a flush. Where there is
/// nothing to write, or nothing at all, the cycle goes on to reading.
pub open spec fn begun(before: SubstreamView, after: SubstreamView, request: RequestView)
    -> bool {
    &&& after.stage == Stage::Flush ==> {
        let mid = SubstreamView {
            high: before.high,
            normal: before.normal,
            in_flight: before.in_flight,
            stage: before.stage,
            ..after
        };
        &&& drained(before, mid)
        &&& after == SubstreamView { stage: Stage::Flush, ..offered_next(mid).0 }
        &&& request == as_request(offered_next(mid).1)
    }
    &&& request is Read ==> {
        &&& after.stage == Stage::Frame
        &&& drained(before, SubstreamView { stage: before.stage, ..after })
    }
    &&& before.high.len() > 0 || before.normal.len() > 0 ==> after.stage == Stage::Flush
    &&& quiet(before) ==> {
        &&& after == SubstreamView { stage: Stage::Frame, ..before }
        &&& request == RequestView::Read
    }
}

/// A step of the writing, on the sink's answer `sink`.
///
/// While the writing goes on, state and request are those of
/// [`send_data_model`]. When the writing that began a cycle is done, the
/// cycle goes on to reading; when the writing that a command started is
/// done, the cycle ends. A failure of the sink closes the substream, with
/// the error reported to the session: at once in the writing that began a
/// cycle, and at the end of the cycle in the writing that a command started.
pub open spec fn written(
    before: SubstreamView,
    sink: SinkReplyView,
    session_closed: bool,
    after: SubstreamView,
    request: RequestView,
) -> bool {
    let (next, step) = send_data_model(before, Some(sink));
    match step {
        SendStepView::Offer(_) | SendStepView::Flush => after == next && request == as_request(
            step,
        ),
        SendStepView::Failed(error) => {
            &&& closes(request)
            &&& if before.stage == Stage::Flush {
                error_closed(next, after, request->Finish_0->Closed_0, error, session_closed)
            } else {
                exists|reported_state: SubstreamView|
                    {
                        &&& #[trigger] write_failed(next, error, reported_state)
                        &&& torn_down(
                            wound_up(reported_state),
                            after,
                            request->Finish_0->Closed_0,
                            session_closed,
                        )
                    }
            }
        },
        SendStepView::Done => if before.stage == Stage::Command {
            finished(next, false, session_closed, after, request)
        } else {
            &&& frame_gate(next) is None ==> request == RequestView::Read
            &&& request is Read ==> after == SubstreamView { stage: Stage::Frame, ..next }
        },
    }
}

/// The state after the framed stream was found to be over: the substream is
/// dead.
pub open spec fn ended(v: SubstreamView) -> SubstreamView {
    SubstreamView { dead: true, frame_pending: false, ..v }
}

/// A step on what reading the framed stream gave.
///
/// A frame is queued for everyone who is to hear of it, and the cycle goes
/// on to the session's commands. A stream that has ended, or whose
/// connection is lost, closes the substream. A frame that the receive hook
/// rejected, and any other failure, close it with the error reported. The
/// framed stream is not read a second time in one cycle.
pub open spec fn read(
    before: SubstreamView,
    frame: FrameReplyView,
    session_closed: bool,
    after: SubstreamView,
    request: RequestView,
) -> bool {
    match frame {
        FrameReplyView::Frame(data) => {
            &&& !(request is Read)
            &&& request != RequestView::Finish(OutcomeView::Pending)
            &&& !closes(request) ==> delivered(received(before, data), after)
        },
        FrameReplyView::NoFrame => {
            &&& !(request is Read)
            &&& !closes(request) ==> same_queues(before, after)
        },
        FrameReplyView::Eof => {
            &&& closes(request)
            &&& torn_down(
                wound_up(ended(before)),
                after,
                request->Finish_0->Closed_0,
                session_closed,
            )
        },
        FrameReplyView::Rejected(error) => {
            &&& closes(request)
            &&& error_closed(before, after, request->Finish_0->Closed_0, error, session_closed)
        },
        FrameReplyView::Failed(error) => {
            &&& closes(request)
            &&& if error.kind.is_disconnect() {
                torn_down(
                    wound_up(ended(before)),
                    after,
                    request->Finish_0->Closed_0,
                    session_closed,
                )
            } else {
                error_closed(before, after, request->Finish_0->Closed_0, error, session_closed)
            }
        },
    }
}

/// The runtime's reply, if there is one, with its data as plain
/// sequences.
pub open spec fn reply_view(reply: Option<Reply>) -> Option<ReplyView> {
    match reply {
        Some(r) => Some(r@),
        None => None,
    }
}

/// One step of the poll cycle, given whether the session was found
/// closing.
///
/// A substream that is over stays so, with nothing more to deliver. A reply
/// that does not answer the last request changes nothing and has the
/// request repeated. A cycle that begins with the substream dead or the
/// session closing closes the substream at once; else it begins as
/// [`begun`] says. A step on the sink's answer is as [`written`] says, a
/// step on what was read as [`read`] says.
pub open spec fn cycled(
    before: SubstreamView,
    reply: Option<ReplyView>,
    session_closed: bool,
    after: SubstreamView,
    request: RequestView,
) -> bool {
    &&& before.stage != Stage::Finished ==> stepped(before, session_closed, after, request)
    &&& before.stage == Stage::Finished ==> {
        &&& after == before
        &&& request == RequestView::Finish(
            OutcomeView::Closed(TeardownView { service: None, session: None, upward: None }),
        )
    }
    &&& !answers(before, reply) ==> after == before && Some(request) == outstanding(before)
    &&& before.stage == Stage::Idle ==> if before.dead || session_closed {
        &&& closes(request)
        &&& torn_down(before, after, request->Finish_0->Closed_0, session_closed)
    } else {
        begun(before, after, request)
    }
    &&& match reply {
        Some(ReplyView::Sink(sink)) => (before.stage == Stage::Flush || before.stage
            == Stage::Command) && answers_sink(before, Some(sink)) ==> written(
            before,
            sink,
            session_closed,
            after,
            request,
        ),
        Some(ReplyView::Stream(frame)) => before.stage == Stage::Frame ==> read(
            before,
            frame,
            session_closed,
            after,
            request,
        ),
        None => true,
    }
}

/// Whether what the command channel gave (`polled`) took `before` to `after`
/// with the result `r`, as [`on_command_model`] says.
pub open spec fn commanded(
    before: SubstreamView,
    polled: Option<Option<(Priority, ProtocolEventView)>>,
    after: SubstreamView,
    r: EventStep,
) -> bool {
    let (next, step, progress) = on_command_model(before, polled);
    &&& after == next
    &&& match r {
        EventStep::Settled(settled) => settled == progress && step == SendStepView::Done,
        EventStep::Sending(sending) => sending@ == step && !(sending is Done) && progress
            == Progress::Advanced,
    }
}

/// The bytes of a queue with one more frame in front.
pub proof fn lemma_total_len_cons(frame: Seq<u8>, queue: Seq<Seq<u8>>)
    ensures
        total_len(seq![frame] + queue) == frame.len() + total_len(queue),
{
    assert((seq![frame] + queue).skip(1) =~= queue);
}

/// The bytes of two queues, one after the other, are those of both.
pub proof fn lemma_total_len_concat(a: Seq<Seq<u8>>, b: Seq<Seq<u8>>)
    ensures
        total_len(a + b) == total_len(a) + total_len(b),
    decreases a.len(),
{
    if a.len() == 0 {
        assert(a + b =~= b);
    } else {
        assert((a + b).skip(1) =~= a.skip(1) + b);
        lemma_total_len_concat(a.skip(1), b);
    }
}

/// The bytes of a queue with one more frame behind.
pub proof fn lemma_total_len_push(queue: Seq<Seq<u8>>, frame: Seq<u8>)
    ensures
        total_len(queue.push(frame)) == total_len(queue) + frame.len(),
{
    assert(queue.push(frame) =~= queue + seq![frame]);
    lemma_total_len_concat(queue, seq![frame]);
    lemma_total_len_cons(frame, Seq::empty());
    assert(seq![frame] + Seq::<Seq<u8>>::empty() =~= seq![frame]);
}

/// A frame put at the front of a lane adds its length to what waits.
pub proof fn lemma_restored_waiting(v: SubstreamView, priority: Priority, frame: Seq<u8>)
    ensures
        waiting(restored(v, priority, frame)) == waiting(v) + frame.len(),
{
    let w = restored(v, priority, frame);
    let head: Seq<Seq<u8>> = match v.in_flight {
        Some((_, f)) => seq![f],
        None => Seq::empty(),
    };
    assert(write_order(v) =~= head + v.high + v.normal);
    assert(write_order(w) =~= head + w.high + w.normal);
    lemma_total_len_concat(head + v.high, v.normal);
    lemma_total_len_concat(head, v.high);
    lemma_total_len_concat(head + w.high, w.normal);
    lemma_total_len_concat(head, w.high);
    lemma_total_len_cons(frame, v.high);
    lemma_total_len_cons(frame, v.normal);
}

/// A frame put at the back of a lane adds its length to what waits.
pub proof fn lemma_pushed_back_waiting(v: SubstreamView, priority: Priority, frame: Seq<u8>)
    ensures
        waiting(pushed_back(v, priority, frame)) == waiting(v) + frame.len(),
{
    let w = pushed_back(v, priority, frame);
    let head: Seq<Seq<u8>> = match v.in_flight {
        Some((_, f)) => seq![f],
        None => Seq::empty(),
    };
    assert(write_order(v) =~= head + v.high + v.normal);
    assert(write_order(w) =~= head + w.high + w.normal);
    lemma_total_len_concat(head + v.high, v.normal);
    lemma_total_len_concat(head, v.high);
    lemma_total_len_concat(head + w.high, w.normal);
    lemma_total_len_concat(head, w.high);
    lemma_total_len_push(v.high, frame);
    lemma_total_len_push(v.normal, frame);
}

/// Taking the next frame to offer moves it from its lane into flight and
/// leaves what waits unchanged.
pub proof fn lemma_offered_next_waiting(v: SubstreamView)
    requires
        v.in_flight is None,
    ensures
        waiting(offered_next(v).0) == waiting(v),
        write_order(offered_next(v).0) == write_order(v),
{
    let w = offered_next(v).0;
    if v.high.len() > 0 {
        assert(seq![v.high[0]] + v.high.skip(1) =~= v.high);
        assert(write_order(w) =~= write_order(v));
    } else if v.normal.len() > 0 {
        assert(seq![v.normal[0]] + v.normal.skip(1) =~= v.normal);
        assert(write_order(w) =~= write_order(v));
    }
}

/// A queue is what is left of itself when nothing has left it.
pub proof fn lemma_opt_tail_refl<T>(queue: Option<Seq<T>>)
    ensures
        is_opt_tail_of(queue, queue),
{
    if let Some(q) = queue {
        lemma_tail_refl(q);
    }
}

/// What is left of what is left of a queue is left of the queue.
pub proof fn lemma_opt_tail_trans<T>(a: Option<Seq<T>>, b: Option<Seq<T>>, c: Option<Seq<T>>)
    requires
        is_opt_tail_of(a, b),
        is_opt_tail_of(b, c),
    ensures
        is_opt_tail_of(a, c),
{
    if let Some(q) = a {
        lemma_tail_trans(a->0, b->0, c->0);
    }
}

/// Nothing delivered is a delivery too.
pub proof fn lemma_drained_refl(v: SubstreamView)
    ensures
        drained(v, v),
{
    lemma_tail_refl(v.upward);
    lemma_opt_tail_refl(v.service);
    lemma_opt_tail_refl(v.session_events);
}

/// Two deliveries, one after the other, are one delivery.
pub proof fn lemma_drained_trans(a: SubstreamView, b: SubstreamView, c: SubstreamView)
    requires
        drained(a, b),
        drained(b, c),
    ensures
        drained(a, c),
{
    lemma_tail_trans(c.upward, b.upward, a.upward);
    lemma_opt_tail_trans(c.service, b.service, a.service);
    lemma_opt_tail_trans(c.session_events, b.session_events, a.session_events);
}

/// Lifecycle: a teardown tells every handler exactly once, as the last thing
/// it hears, that the protocol is over, and leaves the write side and the
/// substream's identity as they were.
pub proof fn lemma_torn_down_farewell(
    before: SubstreamView,
    after: SubstreamView,
    teardown: TeardownView,
    session_closed: bool,
)
    requires
        torn_down(before, after, teardown, session_closed),
    ensures
        farewell(teardown, after),
        !session_closed ==> after.dead == before.dead,
        after.stage == Stage::Finished,
        same_substream(before, after),
        before.dead ==> after.dead,
        after.in_flight == before.in_flight,
        after.high == before.high,
        after.normal == before.normal,
        after.ledger == before.ledger,
{
}

/// The frames that are offered to the sink, one after the other, while it
/// accepts each of them: the first `count` of them.
pub open spec fn offers(v: SubstreamView, count: nat) -> Seq<Seq<u8>>
    decreases count,
{
    if count == 0 {
        Seq::empty()
    } else {
        let (next, step) = offered_next(v);
        match step {
            SendStepView::Offer(frame) => seq![frame] + offers(
                send_inner_model(next, OfferReplyView::Accepted).0,
                (count - 1) as nat,
            ),
            _ => Seq::empty(),
        }
    }
}

/// Frames leave in order: while the sink accepts what it is offered, it is
/// offered every frame of the high lane, oldest first, and after them every
/// frame of the normal lane, oldest first.
pub proof fn lemma_frames_leave_in_order(v: SubstreamView, count: nat)
    requires
        v.in_flight is None,
    ensures
        offers(v, count) == (v.high + v.normal).take(
            if count <= v.high.len() + v.normal.len() {
                count as int
            } else {
                (v.high.len() + v.normal.len()) as int
            },
        ),
    decreases count,
{
    let all = v.high + v.normal;
    if count == 0 {
        assert(all.take(0) =~= Seq::<Seq<u8>>::empty());
    } else if all.len() == 0 {
        assert(all.take(0) =~= Seq::<Seq<u8>>::empty());
    } else {
        let (next, step) = offered_next(v);
        let w = send_inner_model(next, OfferReplyView::Accepted).0;
        lemma_frames_leave_in_order(w, (count - 1) as nat);
        let rest = w.high + w.normal;
        assert(all =~= seq![all[0]] + rest);
        let n = if count <= all.len() {
            count as int
        } else {
            all.len() as int
        };
        assert(all.take(n) =~= seq![all[0]] + rest.take(n - 1));
    }
}

/// A frame queued with priority leaves before a frame queued without, even
/// if the other was queued first: all of the high lane goes before any of
/// the normal lane.
pub proof fn lemma_high_before_normal(v: SubstreamView, urgent: Seq<u8>, plain: Seq<u8>)
    requires
        v.in_flight is None,
    ensures
        ({
            let first = pushed_back(pushed_back(v, Priority::High, urgent), Priority::Normal, plain);
            let second = pushed_back(
                pushed_back(v, Priority::Normal, plain),
                Priority::High,
                urgent,
            );
            &&& write_order(first) == v.high.push(urgent) + v.normal.push(plain)
            &&& write_order(second) == write_order(first)
            &&& write_order(first)[v.high.len() as int] == urgent
            &&& write_order(first)[(v.high.len() + 1 + v.normal.len()) as int] == plain
        }),
{
}

/// A frame that the sink refuses is the next to be offered again: nothing
/// overtakes it.
pub proof fn lemma_refused_keeps_order(v: SubstreamView)
    requires
        v.in_flight is Some,
        (v.in_flight->0).0 == Priority::Normal ==> v.high.len() == 0,
    ensures
        ({
            let back = send_inner_model(v, OfferReplyView::Refused).0;
            &&& write_order(back) == write_order(v)
            &&& offered_next(back).1 == SendStepView::Offer((v.in_flight->0).1)
        }),
{
    let back = send_inner_model(v, OfferReplyView::Refused).0;
    assert(write_order(back) =~= write_order(v));
}

/// The bytes balance: in a substream that gave up no frame, once nothing
/// waits to be written, as many bytes have been released as were queued.
pub proof fn lemma_counter_balance(v: SubstreamView)
    requires
        balanced(v),
        v.ledger.dropped == 0,
        waiting(v) == 0,
    ensures
        v.ledger.released == v.ledger.enqueued,
{
}

/// The state after the frames of `arrived` have been received one after the
/// other and none of the events they caused has been delivered.
pub open spec fn received_all(v: SubstreamView, arrived: Seq<Seq<u8>>) -> SubstreamView
    decreases arrived.len(),
{
    if arrived.len() == 0 {
        v
    } else {
        received_all(received(v, arrived[0]), arrived.skip(1))
    }
}

/// Back-pressure toward the network: in a substream that reports frames to
/// the session, once more events wait for the session than the cap allows,
/// no frame is read. If the session takes nothing, that is the case after
/// `recv_event_size + 1` frames at the latest.
pub proof fn lemma_back_pressure(v: SubstreamView, arrived: Seq<Seq<u8>>)
    requires
        v.event,
        !v.dead,
        v.upward.len() + arrived.len() > v.config.recv_event_size,
    ensures
        frame_gate(received_all(v, arrived)) == Some(Progress::Pending),
        received_all(v, arrived).upward.len() == v.upward.len() + arrived.len(),
    decreases arrived.len(),
{
    if arrived.len() > 0 {
        let next = received(v, arrived[0]);
        lemma_back_pressure(next, arrived.skip(1));
    }
}

/// A received frame is queued for each handler behind everything that
/// already waits for it, so frames reach a handler in the order in which
/// they arrived.
pub proof fn lemma_received_in_order(v: SubstreamView, first: Seq<u8>, second: Seq<u8>)
    ensures
        ({
            let after = received(received(v, first), second);
            &&& v.service matches Some(queue) ==> after.service == Some(
                queue.push(ServiceProtocolEventView::Received { id: v.session.id, data: first }).push(
                    ServiceProtocolEventView::Received { id: v.session.id, data: second },
                ),
            )
            &&& v.session_events matches Some(queue) ==> after.session_events == Some(
                queue.push(SessionProtocolEventView::Received { data: first }).push(
                    SessionProtocolEventView::Received { data: second },
                ),
            )
        }),
{
}

} // verus!
