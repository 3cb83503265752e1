//! The substream: one application protocol's framed channel within a session.
//!
//! A substream sits between three parties. Below it is the framed stream of
//! the multiplexer, which only the runtime can drive. Above it are the
//! session, reached through an event buffer, and the user's protocol handlers,
//! each reached through a buffer of its own. Commands come down from the
//! session through a channel.
//!
//! The poll cycle is a sequence of steps. [`Substream::poll_next`] runs as far
//! as it can without the network and returns a [`Request`]; the runtime
//! performs it on the framed stream and calls `poll_next` again with the
//! [`Reply`], until the request is [`Request::Finish`].

use crate::buffer::{
    lemma_conserved_map, lemma_tail_map, lemma_tail_push, lemma_tail_refl, Buffer, SendResult,
};
use crate::channel::{close_receiver, poll_next, Polled, Priority};
use crate::context::{share, SessionContext};
use crate::error::{TransportError, TransportErrorView};
use crate::frame::octets;
use crate::protocol_handle_stream::{
    ServiceProtocolEvent, ServiceProtocolEventView, SessionProtocolEvent,
    SessionProtocolEventView,
};
use crate::substream::model::{
    FlushReplyView, FrameReplyView, FrameStepView, Ledger, OfferReplyView, OutcomeView,
    ProtocolEventView, ReplyView, RequestView, SendStepView, SinkReplyView,
    SubstreamBuilderView, SubstreamView, TeardownView, answers, answers_sink, as_request,
    balanced, begun, built, closes, commanded, cycled, drained, ended, error_closed, failed,
    farewell, finished, frame_gate, frames, handle_proto_event_model, lemma_drained_refl,
    lemma_drained_trans, lemma_offered_next_waiting, lemma_opt_tail_refl,
    lemma_pushed_back_waiting, lemma_restored_waiting, lemma_torn_down_farewell,
    lemma_total_len_concat, lemma_total_len_cons, noted, offered_next, on_command_model,
    outstanding, poll_complete_model, polled_view, pushed_back, pushed_front, quiet, read,
    received, released_by, reply_view, reported, restored, same_queues, same_substream, send_data_model,
    send_inner_model, served, service_events, session_events, stepped, torn_down, total_len,
    upward_events, waiting, wound_up, write_failed, write_order, written,
};
use crate::{ProtocolId, StreamId};
use bytes::Bytes;
use futures::channel::mpsc::{Receiver, Sender};
use std::collections::VecDeque;
use std::sync::Arc;
use std::task::Context;
use vstd::prelude::*;

pub mod model;

verus! {

/// Soft caps on a substream's buffers.
#[derive(Clone, Copy, PartialEq, Eq, Structural, Debug)]
pub struct SessionConfig {
    /// Above this many frames in the normal write buffer, no command is read.
    pub send_event_size: usize,
    /// Above this many events waiting for the session, no frame is read.
    pub recv_event_size: usize,
}

impl SessionConfig {
    pub fn send_event_size(&self) -> (n: usize)
        ensures
            n == self.send_event_size,
    {
        self.send_event_size
    }

    pub fn recv_event_size(&self) -> (n: usize)
        ensures
            n == self.recv_event_size,
    {
        self.recv_event_size
    }
}

impl Default for SessionConfig {
    fn default() -> (r: Self)
        ensures
            r.send_event_size == 512,
            r.recv_event_size == 512,
    {
        SessionConfig { send_event_size: 512, recv_event_size: 512 }
    }
}

/// What travels between a session and its substreams.
#[allow(inconsistent_fields)]
pub enum ProtocolEvent {
    /// Protocol selection succeeded on a new stream.
    Open { proto_name: String, version: String },
    /// The substream is closed, or is asked to close.
    Close { id: StreamId, proto_id: ProtocolId },
    /// Data: up from the network, or down to it.
    Message { id: StreamId, proto_id: ProtocolId, data: Bytes },
    /// Protocol selection failed.
    SelectError { proto_name: Option<String> },
    /// The substream failed.
    Error { id: StreamId, proto_id: ProtocolId, error: TransportError },
    /// A timeout check is due.
    TimeoutCheck,
}

impl View for ProtocolEvent {
    type V = ProtocolEventView;

    open spec fn view(&self) -> ProtocolEventView {
        match self {
            ProtocolEvent::Open { proto_name, version } => {
                ProtocolEventView::Open { proto_name: proto_name@, version: version@ }
            },
            ProtocolEvent::Close { id, proto_id } => {
                ProtocolEventView::Close { id: *id, proto_id: *proto_id }
            },
            ProtocolEvent::Message { id, proto_id, data } => {
                ProtocolEventView::Message { id: *id, proto_id: *proto_id, data: octets(*data) }
            },
            ProtocolEvent::SelectError { proto_name } => {
                ProtocolEventView::SelectError {
                    proto_name: match proto_name {
                        Some(name) => Some(name@),
                        None => None,
                    },
                }
            },
            ProtocolEvent::Error { id, proto_id, error } => {
                ProtocolEventView::Error { id: *id, proto_id: *proto_id, error: error@ }
            },
            ProtocolEvent::TimeoutCheck => ProtocolEventView::TimeoutCheck,
        }
    }
}

/// What the sink answered to an offered frame.
pub enum OfferReply {
    /// The sink was ready and has taken the frame.
    Accepted,
    /// The sink was not ready; the frame was not sent.
    Refused,
    /// The sink failed.
    Failed(TransportError),
}

/// What the sink answered when asked to flush.
pub enum FlushReply {
    /// Everything the sink held has been written out.
    Flushed,
    /// The sink still holds data that could not be written yet.
    Pending,
    /// The sink failed.
    Failed(TransportError),
}

/// What the sink of the framed stream answered.
pub enum SinkReply {
    Offer(OfferReply),
    Flush(FlushReply),
}

/// What reading the framed stream gave.
pub enum FrameReply {
    /// One complete frame, after the receive hook if one is installed.
    Frame(Bytes),
    /// One complete frame arrived and the receive hook rejected it.
    Rejected(TransportError),
    /// The remote side has closed the stream.
    Eof,
    /// No complete frame has arrived yet.
    NoFrame,
    /// The stream or its codec failed.
    Failed(TransportError),
}

/// The answer to a [`Request`].
pub enum Reply {
    Sink(SinkReply),
    Stream(FrameReply),
}

/// Where a poll cycle stands while it waits for the runtime.
#[derive(Clone, Copy, PartialEq, Eq, Structural, Debug)]
pub enum Stage {
    /// Between cycles.
    Idle,
    /// Writing out what was buffered before the cycle began.
    Flush,
    /// Waiting for the framed stream to be read.
    Frame,
    /// Writing out after a command from the session.
    Command,
    /// Torn down.
    Finished,
}

/// How far one part of a cycle got.
#[derive(Clone, Copy, PartialEq, Eq, Structural, Debug)]
pub enum Progress {
    /// Nothing to do until woken.
    Pending,
    /// Work was done; there may be more.
    Advanced,
    /// This side of the substream is over.
    Finished,
}

/// One step of writing out the buffered frames.
pub enum SendStep {
    /// Offer this frame to the sink.
    Offer(Bytes),
    /// Flush the sink.
    Flush,
    /// Nothing more can be written for now.
    Done,
    /// The sink failed.
    Failed(TransportError),
}

impl View for SendStep {
    type V = SendStepView;

    open spec fn view(&self) -> SendStepView {
        match self {
            SendStep::Offer(frame) => SendStepView::Offer(octets(*frame)),
            SendStep::Flush => SendStepView::Flush,
            SendStep::Done => SendStepView::Done,
            SendStep::Failed(error) => SendStepView::Failed(error@),
        }
    }
}

/// What became of the frame in flight when the sink answered.
pub struct Landing {
    /// Whether the sink was not ready, or how it failed.
    pub blocked: Result<bool, TransportError>,
    /// The bytes to take off the session's count of waiting bytes.
    pub released: usize,
}

/// How the delivery to the user's handlers ended, for each handler. A
/// handler that is not there counts as done.
#[derive(Clone, Copy, PartialEq, Eq, Structural, Debug)]
pub struct Delivery {
    pub service: SendResult,
    pub session: SendResult,
}

/// How reading a command from the session ended.
pub enum EventStep {
    /// No writing was started.
    Settled(Progress),
    /// A command was taken and writing has begun with this step.
    Sending(SendStep),
}

/// What is left to deliver when a substream ends: for each receiver the
/// events that still wait for it, oldest first, and a handle on its channel.
/// The runtime delivers them to completion on a task of their own, so that
/// the teardown never waits.
pub struct Teardown {
    /// For the service-level handler.
    pub service: Option<(Sender<ServiceProtocolEvent>, VecDeque<ServiceProtocolEvent>)>,
    /// For the session-level handler.
    pub session: Option<(Sender<SessionProtocolEvent>, VecDeque<SessionProtocolEvent>)>,
    /// For the session itself.
    pub upward: Option<(Sender<ProtocolEvent>, VecDeque<ProtocolEvent>)>,
}

impl View for Teardown {
    type V = TeardownView;

    open spec fn view(&self) -> TeardownView {
        TeardownView {
            service: match self.service {
                Some((_, queue)) => Some(service_events(queue@)),
                None => None,
            },
            session: match self.session {
                Some((_, queue)) => Some(session_events(queue@)),
                None => None,
            },
            upward: match self.upward {
                Some((_, queue)) => Some(upward_events(queue@)),
                None => None,
            },
        }
    }
}

/// How reading the framed stream ended.
pub enum FrameStep {
    /// The framed stream is to be read.
    Read,
    /// Reading is over for this cycle.
    Settled(Progress),
    /// The substream has been torn down.
    Closed(Teardown),
}

impl View for FrameStep {
    type V = FrameStepView;

    open spec fn view(&self) -> FrameStepView {
        match self {
            FrameStep::Read => FrameStepView::Read,
            FrameStep::Settled(progress) => FrameStepView::Settled(*progress),
            FrameStep::Closed(teardown) => FrameStepView::Closed(teardown@),
        }
    }
}

/// How a poll cycle ended.
pub enum Outcome {
    /// Nothing to do until woken.
    Pending,
    /// Work was done; poll again.
    Ready,
    /// The substream is over; this is what is left to deliver.
    Closed(Teardown),
}

/// What the runtime is to do next.
pub enum Request {
    /// Ask the sink whether it is ready and, if so, start sending this frame.
    /// Answer with [`SinkReply::Offer`].
    Offer(Bytes),
    /// Flush the sink. Answer with [`SinkReply::Flush`].
    Flush,
    /// Read the framed stream. Answer with [`Reply::Stream`].
    Read,
    /// The cycle is over.
    Finish(Outcome),
}

impl View for Request {
    type V = RequestView;

    open spec fn view(&self) -> RequestView {
        match self {
            Request::Offer(frame) => RequestView::Offer(octets(*frame)),
            Request::Flush => RequestView::Flush,
            Request::Read => RequestView::Read,
            Request::Finish(Outcome::Pending) => RequestView::Finish(OutcomeView::Pending),
            Request::Finish(Outcome::Ready) => RequestView::Finish(OutcomeView::Ready),
            Request::Finish(Outcome::Closed(teardown)) => RequestView::Finish(
                OutcomeView::Closed(teardown@),
            ),
        }
    }
}

impl View for FrameReply {
    type V = FrameReplyView;

    open spec fn view(&self) -> FrameReplyView {
        match self {
            FrameReply::Frame(data) => FrameReplyView::Frame(octets(*data)),
            FrameReply::Rejected(error) => FrameReplyView::Rejected(error@),
            FrameReply::Eof => FrameReplyView::Eof,
            FrameReply::NoFrame => FrameReplyView::NoFrame,
            FrameReply::Failed(error) => FrameReplyView::Failed(error@),
        }
    }
}

impl View for Reply {
    type V = ReplyView;

    open spec fn view(&self) -> ReplyView {
        match self {
            Reply::Sink(reply) => ReplyView::Sink(reply@),
            Reply::Stream(reply) => ReplyView::Stream(reply@),
        }
    }
}

/// Each protocol of a session has a substream. It routes the protocol's
/// frames and events.
pub struct Substream {
    id: StreamId,
    proto_id: ProtocolId,
    context: Arc<SessionContext>,
    event: bool,
    config: SessionConfig,
    high_write_buf: VecDeque<Bytes>,
    write_buf: VecDeque<Bytes>,
    dead: bool,
    keep_buffer: bool,
    event_sender: Buffer<ProtocolEvent>,
    event_receiver: Receiver<(Priority, ProtocolEvent)>,
    service_proto_sender: Option<Buffer<ServiceProtocolEvent>>,
    session_proto_sender: Option<Buffer<SessionProtocolEvent>>,
    stage: Stage,
    in_flight: Option<(Priority, Bytes)>,
    frame_pending: bool,
    ledger: Ghost<Ledger>,
}

impl View for Substream {
    type V = SubstreamView;

    closed spec fn view(&self) -> SubstreamView {
        SubstreamView {
            id: self.id,
            proto_id: self.proto_id,
            session: self.context@,
            event: self.event,
            keep_buffer: self.keep_buffer,
            config: self.config,
            dead: self.dead,
            high: frames(self.high_write_buf@),
            normal: frames(self.write_buf@),
            in_flight: match self.in_flight {
                Some((priority, frame)) => Some((priority, octets(frame))),
                None => None,
            },
            upward: upward_events(self.event_sender@),
            service: match self.service_proto_sender {
                Some(buffer) => Some(service_events(buffer@)),
                None => None,
            },
            session_events: match self.session_proto_sender {
                Some(buffer) => Some(session_events(buffer@)),
                None => None,
            },
            upward_handed: upward_events(self.event_sender.handed()),
            service_handed: match self.service_proto_sender {
                Some(buffer) => service_events(buffer.handed()),
                None => Seq::empty(),
            },
            session_handed: match self.session_proto_sender {
                Some(buffer) => session_events(buffer.handed()),
                None => Seq::empty(),
            },
            stage: self.stage,
            frame_pending: self.frame_pending,
            ledger: self.ledger@,
        }
    }
}

impl View for OfferReply {
    type V = OfferReplyView;

    open spec fn view(&self) -> OfferReplyView {
        match self {
            OfferReply::Accepted => OfferReplyView::Accepted,
            OfferReply::Refused => OfferReplyView::Refused,
            OfferReply::Failed(error) => OfferReplyView::Failed(error@),
        }
    }
}

impl View for FlushReply {
    type V = FlushReplyView;

    open spec fn view(&self) -> FlushReplyView {
        match self {
            FlushReply::Flushed => FlushReplyView::Flushed,
            FlushReply::Pending => FlushReplyView::Pending,
            FlushReply::Failed(error) => FlushReplyView::Failed(error@),
        }
    }
}

impl View for SinkReply {
    type V = SinkReplyView;

    open spec fn view(&self) -> SinkReplyView {
        match self {
            SinkReply::Offer(reply) => SinkReplyView::Offer(reply@),
            SinkReply::Flush(reply) => SinkReplyView::Flush(reply@),
        }
    }
}

impl Substream {
    /// What holds of a substream between any two calls: a frame is in flight
    /// only while a write is under way, the framed stream is being read only
    /// while that is allowed, and the ledger is balanced.
    pub open spec fn wf(&self) -> bool {
        &&& self@.in_flight is Some ==> (self@.stage == Stage::Flush || self@.stage
            == Stage::Command)
        &&& self@.stage == Stage::Frame ==> frame_gate(self@) is None
        &&& balanced(self@)
    }

    /// Whether received frames are also reported to the session.
    pub fn event(&self) -> (r: bool)
        ensures
            r == self@.event,
    {
        self.event
    }

    /// Tells the user's handlers that the protocol is open.
    pub fn proto_open(&mut self, version: String)
        ensures
            final(self)@ == (SubstreamView {
                service: match old(self)@.service {
                    Some(queue) => Some(
                        queue.push(
                            ServiceProtocolEventView::Connected {
                                session: old(self)@.session,
                                version: version@,
                            },
                        ),
                    ),
                    None => None,
                },
                session_events: match old(self)@.session_events {
                    Some(queue) => Some(
                        queue.push(SessionProtocolEventView::Opened { version: version@ }),
                    ),
                    None => None,
                },
                ..old(self)@
            }),
    {
        if let Some(buffer) = &mut self.service_proto_sender {
            let ghost before = buffer@;
            let event = ServiceProtocolEvent::Connected {
                session: share(&self.context),
                version: version.clone(),
            };
            buffer.push(event);
            assert(service_events(buffer@) =~= service_events(before).push(event@));
        }
        if let Some(buffer) = &mut self.session_proto_sender {
            let ghost before = buffer@;
            let event = SessionProtocolEvent::Opened { version };
            buffer.push(event);
            assert(session_events(buffer@) =~= session_events(before).push(event@));
        }
    }

    /// Puts `frame` back at the front of its lane.
    fn restore(&mut self, priority: Priority, frame: Bytes)
        ensures
            final(self)@ == restored(old(self)@, priority, octets(frame)),
    {
        if priority.is_high() {
            self.high_write_buf.push_front(frame);
            assert(frames(self.high_write_buf@) =~= seq![octets(frame)] + frames(
                old(self).high_write_buf@,
            ));
        } else {
            self.write_buf.push_front(frame);
            assert(frames(self.write_buf@) =~= seq![octets(frame)] + frames(
                old(self).write_buf@,
            ));
        }
    }

    /// Queues `frame` at the front of its lane: it is the next of that lane
    /// to be written.
    pub fn push_front(&mut self, priority: Priority, frame: Bytes)
        ensures
            final(self)@ == pushed_front(old(self)@, priority, octets(frame)),
            old(self).wf() ==> final(self).wf(),
    {
        let ghost ledger = self.ledger@;
        let ghost bytes = octets(frame).len();
        self.restore(priority, frame);
        self.ledger = Ghost(Ledger { enqueued: ledger.enqueued + bytes, ..ledger });
        proof {
            lemma_restored_waiting(old(self)@, priority, octets(frame));
        }
    }

    /// Queues `frame` at the back of its lane: it is written after everything
    /// that waits in that lane.
    pub fn push_back(&mut self, priority: Priority, frame: Bytes)
        ensures
            final(self)@ == pushed_back(old(self)@, priority, octets(frame)),
            old(self).wf() ==> final(self).wf(),
    {
        let ghost ledger = self.ledger@;
        let ghost bytes = octets(frame).len();
        if priority.is_high() {
            self.high_write_buf.push_back(frame);
            assert(frames(self.high_write_buf@) =~= frames(old(self).high_write_buf@).push(
                octets(frame),
            ));
        } else {
            self.write_buf.push_back(frame);
            assert(frames(self.write_buf@) =~= frames(old(self).write_buf@).push(
                octets(frame),
            ));
        }
        self.ledger = Ghost(Ledger { enqueued: ledger.enqueued + bytes, ..ledger });
        proof {
            lemma_pushed_back_waiting(old(self)@, priority, octets(frame));
        }
    }

    /// Acts on the sink's answer to the frame in flight. Tells whether the
    /// sink was not ready.
    ///
    /// The session's count of waiting bytes is not touched here: the bytes
    /// to take off it are returned, and `send_data` takes them off.
    fn send_inner(&mut self, reply: OfferReply) -> (r: Landing)
        requires
            old(self)@.in_flight is Some,
            balanced(old(self)@),
        ensures
            final(self)@ == send_inner_model(old(self)@, reply@).0,
            r.released == released_by(old(self)@, reply@),
            final(self)@.ledger.released == old(self)@.ledger.released + r.released,
            match r.blocked {
                Ok(blocked) => send_inner_model(old(self)@, reply@).1 == Ok::<
                    bool,
                    TransportErrorView,
                >(blocked),
                Err(error) => send_inner_model(old(self)@, reply@).1 == Err::<
                    bool,
                    TransportErrorView,
                >(error@),
            },
            balanced(final(self)@),
    {
        let ghost ledger = self.ledger@;
        let (priority, frame) = self.in_flight.take().unwrap();
        let ghost landed = self@;
        let ghost bytes = octets(frame).len();
        proof {
            assert(write_order(old(self)@) =~= seq![octets(frame)] + write_order(landed));
            lemma_total_len_cons(octets(frame), write_order(landed));
        }
        match reply {
            OfferReply::Accepted => {
                let data_size = frame.len();
                self.ledger = Ghost(Ledger { released: ledger.released + bytes, ..ledger });
                Landing { blocked: Ok(false), released: data_size }
            },
            OfferReply::Refused => {
                self.restore(priority, frame);
                proof {
                    lemma_restored_waiting(landed, priority, octets(frame));
                }
                Landing { blocked: Ok(true), released: 0 }
            },
            OfferReply::Failed(error) => {
                self.ledger = Ghost(Ledger { dropped: ledger.dropped + bytes, ..ledger });
                Landing { blocked: Err(error), released: 0 }
            },
        }
    }

    /// Reads the sink's answer to a flush. Tells whether the sink still holds
    /// data.
    fn poll_complete(reply: FlushReply) -> (r: Result<bool, TransportError>)
        ensures
            match r {
                Ok(pending) => poll_complete_model(reply@) == Ok::<bool, TransportErrorView>(
                    pending,
                ),
                Err(error) => poll_complete_model(reply@) == Err::<bool, TransportErrorView>(
                    error@,
                ),
            },
    {
        match reply {
            FlushReply::Pending => Ok(true),
            FlushReply::Flushed => Ok(false),
            FlushReply::Failed(error) => Err(error),
        }
    }

    /// Takes the next frame to write out of its lane and into flight.
    fn offer_next(&mut self) -> (step: SendStep)
        requires
            old(self)@.in_flight is None,
        ensures
            final(self)@ == offered_next(old(self)@).0,
            step@ == offered_next(old(self)@).1,
    {
        if let Some(frame) = self.high_write_buf.pop_front() {
            self.in_flight = Some((Priority::High, frame.clone()));
            assert(frames(self.high_write_buf@) =~= frames(old(self).high_write_buf@).skip(1));
            SendStep::Offer(frame)
        } else if let Some(frame) = self.write_buf.pop_front() {
            self.in_flight = Some((Priority::Normal, frame.clone()));
            assert(frames(self.write_buf@) =~= frames(old(self).write_buf@).skip(1));
            SendStep::Offer(frame)
        } else {
            SendStep::Flush
        }
    }

    /// One step of writing the buffered frames to the sink.
    fn send_data(&mut self, reply: Option<SinkReply>) -> (step: SendStep)
        requires
            answers_sink(
                old(self)@,
                match reply {
                    Some(r) => Some(r@),
                    None => None,
                },
            ),
            balanced(old(self)@),
        ensures
            final(self)@ == send_data_model(
                old(self)@,
                match reply {
                    Some(r) => Some(r@),
                    None => None,
                },
            ).0,
            step@ == send_data_model(
                old(self)@,
                match reply {
                    Some(r) => Some(r@),
                    None => None,
                },
            ).1,
            balanced(final(self)@),
            step is Offer <==> final(self)@.in_flight is Some,
    {
        match reply {
            None => {
                proof {
                    lemma_offered_next_waiting(self@);
                }
                self.offer_next()
            },
            Some(SinkReply::Offer(reply)) => {
                let landing = self.send_inner(reply);
                self.context.decr_pending_data_size(landing.released);
                match landing.blocked {
                    Ok(false) => {
                        proof {
                            lemma_offered_next_waiting(self@);
                        }
                        self.offer_next()
                    },
                    Ok(true) => SendStep::Flush,
                    Err(error) => SendStep::Failed(error),
                }
            },
            Some(SinkReply::Flush(reply)) => match Self::poll_complete(reply) {
                Ok(true) => SendStep::Done,
                Ok(false) => {
                    if self.high_write_buf.len() > 0 || self.write_buf.len() > 0 {
                        proof {
                            lemma_offered_next_waiting(self@);
                        }
                        self.offer_next()
                    } else {
                        SendStep::Done
                    }
                },
                Err(error) => SendStep::Failed(error),
            },
        }
    }

    /// Takes note of how an attempt to deliver ended.
    fn note_send_result(&mut self, result: SendResult)
        ensures
            final(self)@ == noted(old(self)@, result),
    {
        if let SendResult::Disconnect = result {
            self.dead = true;
        }
    }

    /// Hands waiting events to the session as far as its channel takes them,
    /// and tells how that ended. A session that is gone ends the substream.
    fn output(&mut self, cx: &mut Context<'_>) -> (result: SendResult)
        ensures
            drained(old(self)@, final(self)@),
            final(self)@.dead == (old(self)@.dead || result == SendResult::Disconnect),
            result == SendResult::Done <==> final(self)@.upward.len() == 0,
            final(self)@.service == old(self)@.service,
            final(self)@.session_events == old(self)@.session_events,
            old(self)@.upward.len() == 0 ==> final(self)@ == old(self)@,
    {
        let ghost before = self.event_sender@;
        let ghost handed = self.event_sender.handed();
        let result = self.event_sender.try_send(cx);
        proof {
            lemma_tail_map(
                self.event_sender@,
                before,
                |event: ProtocolEvent| event@,
            );
            lemma_conserved_map(
                self.event_sender.handed(),
                self.event_sender@,
                handed,
                before,
                |event: ProtocolEvent| event@,
            );
            lemma_opt_tail_refl(self@.service);
            lemma_opt_tail_refl(self@.session_events);
            if before.len() == 0 {
                assert(self.event_sender@ =~= before);
                assert(self.event_sender.handed() =~= handed);
            }
        }
        self.note_send_result(result);
        result
    }

    /// Queues `event` for the session and delivers what the channel takes.
    fn output_event(&mut self, cx: &mut Context<'_>, event: ProtocolEvent)
        ensures
            drained(reported(old(self)@, event@), final(self)@),
            final(self)@.service == old(self)@.service,
            final(self)@.session_events == old(self)@.session_events,
    {
        let ghost before = self.event_sender@;
        self.event_sender.push(event);
        assert(upward_events(self.event_sender@) =~= upward_events(before).push(event@));
        self.output(cx);
    }

    /// Hands waiting events to the user's handlers as far as their channels
    /// take them, and tells how that ended for each. The substream dies
    /// exactly if a handler's channel is gone; then the session is told what
    /// still waits for it.
    fn distribute_to_user_level(&mut self, cx: &mut Context<'_>) -> (r: Delivery)
        ensures
            drained(old(self)@, final(self)@),
            final(self)@.dead == (old(self)@.dead || r.service == SendResult::Disconnect
                || r.session == SendResult::Disconnect),
            r.service == SendResult::Done <==> served(final(self)@.service),
            r.session == SendResult::Done <==> served(final(self)@.session_events),
            !final(self)@.dead ==> final(self)@.upward == old(self)@.upward,
    {
        proof {
            lemma_drained_refl(self@);
        }
        let service = match &mut self.service_proto_sender {
            Some(buffer) => {
                let ghost before = buffer@;
                let ghost handed = buffer.handed();
                let result = buffer.try_send(cx);
                proof {
                    lemma_tail_map(buffer@, before, |event: ServiceProtocolEvent| event@);
                    lemma_conserved_map(
                        buffer.handed(),
                        buffer@,
                        handed,
                        before,
                        |event: ServiceProtocolEvent| event@,
                    );
                }
                result
            },
            None => SendResult::Done,
        };
        self.note_send_result(service);
        let ghost mid = self@;
        assert(drained(old(self)@, mid)) by {
            lemma_tail_refl(mid.upward);
            lemma_opt_tail_refl(mid.session_events);
        }
        let session = match &mut self.session_proto_sender {
            Some(buffer) => {
                let ghost before = buffer@;
                let ghost handed = buffer.handed();
                let result = buffer.try_send(cx);
                proof {
                    lemma_tail_map(buffer@, before, |event: SessionProtocolEvent| event@);
                    lemma_conserved_map(
                        buffer.handed(),
                        buffer@,
                        handed,
                        before,
                        |event: SessionProtocolEvent| event@,
                    );
                }
                result
            },
            None => SendResult::Done,
        };
        self.note_send_result(session);
        let ghost late = self@;
        assert(drained(mid, late)) by {
            lemma_tail_refl(late.upward);
            lemma_opt_tail_refl(late.service);
        }
        proof {
            lemma_drained_trans(old(self)@, mid, late);
        }
        if self.dead {
            self.output(cx);
            proof {
                lemma_drained_trans(old(self)@, late, self@);
            }
        }
        Delivery { service, session }
    }

    /// Begins a cycle's writing: delivers what waits for the handlers and
    /// for the session, then starts on the buffered frames.
    fn flush(&mut self, cx: &mut Context<'_>) -> (step: SendStep)
        requires
            old(self)@.in_flight is None,
            balanced(old(self)@),
        ensures
            ({
                let mid = SubstreamView {
                    high: old(self)@.high,
                    normal: old(self)@.normal,
                    in_flight: old(self)@.in_flight,
                    ..final(self)@
                };
                &&& drained(old(self)@, mid)
                &&& {
                    ||| (final(self)@, step@) == send_data_model(mid, None)
                    ||| {
                        &&& final(self)@ == mid
                        &&& step@ == SendStepView::Done
                        &&& mid.upward.len() == 0
                        &&& mid.high.len() == 0
                        &&& mid.normal.len() == 0
                    }
                }
                &&& (mid.high.len() > 0 || mid.normal.len() > 0) ==> (final(self)@, step@)
                    == send_data_model(mid, None)
            }),
            quiet(old(self)@) ==> final(self)@ == old(self)@ && step@ == SendStepView::Done,
            balanced(final(self)@),
            step is Offer <==> final(self)@.in_flight is Some,
            !(step is Failed),
    {
        let service_idle = match &self.service_proto_sender {
            Some(buffer) => buffer.is_empty(),
            None => true,
        };
        let session_idle = match &self.session_proto_sender {
            Some(buffer) => buffer.is_empty(),
            None => true,
        };
        proof {
            lemma_drained_refl(self@);
        }
        if !service_idle || !session_idle {
            self.distribute_to_user_level(cx);
        }
        let ghost first = self@;
        if !self.event_sender.is_empty() || self.write_buf.len() > 0
            || self.high_write_buf.len() > 0 {
            self.output(cx);
            proof {
                lemma_drained_trans(old(self)@, first, self@);
            }
            assert(waiting(self@) == waiting(old(self)@));
            self.send_data(None)
        } else {
            SendStep::Done
        }
    }

    /// Acts on one command from the session. Returns the first step of the
    /// writing that the command starts, or `Done` where it starts none.
    fn handle_proto_event(&mut self, event: ProtocolEvent, priority: Priority) -> (step:
        SendStep)
        requires
            old(self)@.in_flight is None,
            balanced(old(self)@),
        ensures
            (final(self)@, step@) == handle_proto_event_model(old(self)@, event@, priority),
            balanced(final(self)@),
            step is Offer <==> final(self)@.in_flight is Some,
            !(step is Failed),
    {
        match event {
            ProtocolEvent::Message { data, .. } => {
                self.push_back(priority, data);
                proof {
                    lemma_pushed_back_waiting(old(self)@, priority, octets(data));
                }
                self.send_data(None)
            },
            ProtocolEvent::Close { .. } => {
                let ghost ledger = self.ledger@;
                let ghost lost = total_len(self@.normal);
                self.write_buf.clear();
                self.dead = true;
                self.ledger = Ghost(Ledger { dropped: ledger.dropped + lost, ..ledger });
                proof {
                    assert(frames(self.write_buf@) =~= Seq::<Seq<u8>>::empty());
                    let v = old(self)@;
                    assert(write_order(v) =~= v.high + v.normal);
                    assert(write_order(self@) =~= v.high);
                    lemma_total_len_concat(v.high, v.normal);
                }
                SendStep::Done
            },
            _ => SendStep::Done,
        }
    }

    /// Reports a failed write to the session and ends the substream.
    fn send_failed(&mut self, cx: &mut Context<'_>, error: TransportError)
        ensures
            drained(
                reported(
                    old(self)@,
                    ProtocolEventView::Error {
                        id: old(self)@.id,
                        proto_id: old(self)@.proto_id,
                        error: error@,
                    },
                ),
                final(self)@,
            ),
            final(self)@.dead,
            write_failed(old(self)@, error@, final(self)@),
            final(self)@.service == old(self)@.service,
            final(self)@.session_events == old(self)@.session_events,
    {
        self.output_event(
            cx,
            ProtocolEvent::Error { id: self.id, proto_id: self.proto_id, error },
        );
        self.dead = true;
    }

    /// Reads one command from the session, unless the substream is dead or
    /// the normal write buffer is over its cap.
    fn recv_event(&mut self, cx: &mut Context<'_>) -> (r: EventStep)
        requires
            old(self)@.in_flight is None,
            balanced(old(self)@),
        ensures
            old(self)@.dead ==> final(self)@ == old(self)@ && r == EventStep::Settled(
                Progress::Finished,
            ),
            !old(self)@.dead && old(self)@.normal.len() > old(self)@.config.send_event_size
                ==> final(self)@ == old(self)@ && r == EventStep::Settled(Progress::Pending),
            !old(self)@.dead && old(self)@.normal.len() <= old(self)@.config.send_event_size
                ==> exists|polled: Option<Option<(Priority, ProtocolEventView)>>|
                #[trigger] commanded(old(self)@, polled, final(self)@, r),
            balanced(final(self)@),
            same_queues(old(self)@, final(self)@),
            final(self)@.frame_pending == old(self)@.frame_pending,
            final(self)@.stage == old(self)@.stage,
            match r {
                EventStep::Settled(_) => final(self)@.in_flight is None,
                EventStep::Sending(step) => !(step is Done) && !(step is Failed) && (step is Offer
                    <==> final(self)@.in_flight is Some),
            },
    {
        if self.dead {
            return EventStep::Settled(Progress::Finished);
        }
        if self.write_buf.len() > self.config.send_event_size() {
            return EventStep::Settled(Progress::Pending);
        }
        let polled = poll_next(&mut self.event_receiver, cx);
        let ghost taken = polled_view(polled);
        let r = self.on_command(polled);
        assert(commanded(old(self)@, taken, self@, r));
        r
    }

    /// Acts on what the command channel gave: a command, the news that
    /// every sender is gone, or nothing yet.
    fn on_command(&mut self, polled: Polled<(Priority, ProtocolEvent)>) -> (r: EventStep)
        requires
            old(self)@.in_flight is None,
            balanced(old(self)@),
        ensures
            commanded(old(self)@, polled_view(polled), final(self)@, r),
            balanced(final(self)@),
            match r {
                EventStep::Settled(_) => final(self)@.in_flight is None,
                EventStep::Sending(step) => !(step is Done) && !(step is Failed) && (step is Offer
                    <==> final(self)@.in_flight is Some),
            },
    {
        match polled {
            Polled::Item((priority, event)) => {
                let step = self.handle_proto_event(event, priority);
                match step {
                    SendStep::Done => EventStep::Settled(Progress::Advanced),
                    _ => EventStep::Sending(step),
                }
            },
            Polled::Closed => {
                self.dead = true;
                EventStep::Settled(Progress::Finished)
            },
            Polled::Pending => EventStep::Settled(Progress::Pending),
        }
    }

    /// Closes the substream, given whether the session is closing: no
    /// command is read any more, and everything that waits is handed over
    /// for delivery, each queue ending with its farewell.
    fn close_proto_stream(&mut self, cx: &mut Context<'_>, session_closed: bool) -> (t: Teardown)
        ensures
            torn_down(old(self)@, final(self)@, t@, session_closed),
    {
        close_receiver(&mut self.event_receiver);
        let service = match &mut self.service_proto_sender {
            Some(buffer) => {
                let ghost before = buffer@;
                let (sender, mut events) = buffer.take();
                let event = ServiceProtocolEvent::Disconnected { id: self.context.id() };
                events.push_back(event);
                assert(service_events(events@) =~= service_events(before).push(event@));
                assert(service_events(buffer@) =~= Seq::empty());
                Some((sender, events))
            },
            None => None,
        };
        let session = match &mut self.session_proto_sender {
            Some(buffer) => {
                let ghost before = buffer@;
                let (sender, mut events) = buffer.take();
                events.push_back(SessionProtocolEvent::Closed);
                assert(session_events(events@) =~= session_events(before).push(
                    SessionProtocolEventView::Closed,
                ));
                if session_closed {
                    let ghost so_far = events@;
                    events.push_back(SessionProtocolEvent::Disconnected);
                    assert(session_events(events@) =~= session_events(so_far).push(
                        SessionProtocolEventView::Disconnected,
                    ));
                }
                assert(session_events(buffer@) =~= Seq::empty());
                Some((sender, events))
            },
            None => None,
        };
        self.stage = Stage::Finished;
        let upward = if !session_closed {
            let ghost before = self.event_sender@;
            let (sender, mut events) = self.event_sender.take();
            let event = ProtocolEvent::Close { id: self.id, proto_id: self.proto_id };
            events.push_back(event);
            assert(upward_events(events@) =~= upward_events(before).push(event@));
            assert(upward_events(self.event_sender@) =~= Seq::empty());
            Some((sender, events))
        } else {
            self.output(cx);
            None
        };
        Teardown { service, session, upward }
    }

    /// Ends the substream on a failure: reports the error to the session and
    /// closes.
    fn error_close(
        &mut self,
        cx: &mut Context<'_>,
        error: TransportError,
        session_closed: bool,
    ) -> (t: Teardown)
        ensures
            error_closed(old(self)@, final(self)@, t@, error@, session_closed),
    {
        self.dead = true;
        if !self.keep_buffer {
            self.event_sender.clear();
        }
        let ghost before = self.event_sender@;
        let event = ProtocolEvent::Error { id: self.id, proto_id: self.proto_id, error };
        self.event_sender.push(event);
        assert(upward_events(self.event_sender@) =~= upward_events(before).push(event@));
        assert(!old(self)@.keep_buffer ==> upward_events(before) =~= Seq::empty());
        self.close_proto_stream(cx, session_closed)
    }

    /// Reading the framed stream. Called without a reply it decides whether
    /// the stream is to be read at all; called with one it acts on what was
    /// read.
    fn recv_frame(
        &mut self,
        cx: &mut Context<'_>,
        reply: Option<FrameReply>,
        session_closed: bool,
    ) -> (r: FrameStep)
        ensures
            match reply {
                None => {
                    &&& final(self)@ == old(self)@
                    &&& r@ == match frame_gate(old(self)@) {
                        Some(progress) => FrameStepView::Settled(progress),
                        None => FrameStepView::Read,
                    }
                },
                Some(FrameReply::Frame(data)) => {
                    &&& drained(received(old(self)@, octets(data)), final(self)@)
                    &&& r@ == FrameStepView::Settled(Progress::Advanced)
                },
                Some(FrameReply::Rejected(error)) => {
                    &&& r@ is Closed
                    &&& error_closed(
                        old(self)@,
                        final(self)@,
                        r@->Closed_0,
                        error@,
                        session_closed,
                    )
                },
                Some(FrameReply::Eof) => {
                    &&& final(self)@ == SubstreamView { dead: true, ..old(self)@ }
                    &&& r@ == FrameStepView::Settled(Progress::Finished)
                },
                Some(FrameReply::NoFrame) => {
                    &&& final(self)@ == old(self)@
                    &&& r@ == FrameStepView::Settled(Progress::Pending)
                },
                Some(FrameReply::Failed(error)) => if error.kind.is_disconnect() {
                    &&& final(self)@ == SubstreamView { dead: true, ..old(self)@ }
                    &&& r@ == FrameStepView::Settled(Progress::Finished)
                } else {
                    &&& r@ is Closed
                    &&& error_closed(
                        old(self)@,
                        final(self)@,
                        r@->Closed_0,
                        error@,
                        session_closed,
                    )
                },
            },
    {
        match reply {
            None => {
                if self.dead {
                    FrameStep::Settled(Progress::Finished)
                } else if self.event_sender.len() > self.config.recv_event_size() {
                    FrameStep::Settled(Progress::Pending)
                } else {
                    FrameStep::Read
                }
            },
            Some(FrameReply::Frame(data)) => {
                let ghost message = ProtocolEventView::Message {
                    id: self.id,
                    proto_id: self.proto_id,
                    data: octets(data),
                };
                if let Some(buffer) = &mut self.service_proto_sender {
                    let ghost before = buffer@;
                    let event = ServiceProtocolEvent::Received {
                        id: self.context.id(),
                        data: data.clone(),
                    };
                    buffer.push(event);
                    assert(service_events(buffer@) =~= service_events(before).push(event@));
                }
                if let Some(buffer) = &mut self.session_proto_sender {
                    let ghost before = buffer@;
                    let event = SessionProtocolEvent::Received { data: data.clone() };
                    buffer.push(event);
                    assert(session_events(buffer@) =~= session_events(before).push(event@));
                }
                let ghost queued = self@;
                self.distribute_to_user_level(cx);
                if self.event {
                    let ghost mid = self@;
                    proof {
                        lemma_tail_push(mid.upward, queued.upward, message);
                        assert(mid.upward_handed + mid.upward.push(message) =~= (mid.upward_handed
                            + mid.upward).push(message));
                        assert(queued.upward_handed + queued.upward.push(message) =~= (
                        queued.upward_handed + queued.upward).push(message));
                    }
                    assert(drained(reported(queued, message), reported(mid, message)));
                    self.output_event(
                        cx,
                        ProtocolEvent::Message { id: self.id, proto_id: self.proto_id, data },
                    );
                    proof {
                        lemma_drained_trans(
                            reported(queued, message),
                            reported(mid, message),
                            self@,
                        );
                    }
                }
                FrameStep::Settled(Progress::Advanced)
            },
            Some(FrameReply::Rejected(error)) => {
                let t = self.error_close(cx, error, session_closed);
                FrameStep::Closed(t)
            },
            Some(FrameReply::Eof) => {
                self.dead = true;
                FrameStep::Settled(Progress::Finished)
            },
            Some(FrameReply::NoFrame) => FrameStep::Settled(Progress::Pending),
            Some(FrameReply::Failed(error)) => {
                if error.kind.is_disconnect() {
                    self.dead = true;
                    FrameStep::Settled(Progress::Finished)
                } else {
                    let t = self.error_close(cx, error, session_closed);
                    FrameStep::Closed(t)
                }
            },
        }
    }

    /// Ends a cycle, given whether the session was found closing: closes
    /// exactly if the substream is dead or the session closing, else reports
    /// whether anything was done.
    fn finish(&mut self, cx: &mut Context<'_>, pending: bool, session_closed: bool) -> (request:
        Request)
        requires
            old(self)@.in_flight is None,
            balanced(old(self)@),
        ensures
            stepped(old(self)@, session_closed, final(self)@, request@),
            finished(old(self)@, pending, session_closed, final(self)@, request@),
            closes(request@) <==> old(self)@.dead || session_closed,
    {
        if self.dead || session_closed {
            if !self.keep_buffer {
                self.event_sender.clear();
            }
            let ghost before = self@;
            assert(before == wound_up(old(self)@)) by {
                assert(!old(self)@.keep_buffer ==> before.upward =~= Seq::empty());
            }
            let t = self.close_proto_stream(cx, session_closed);
            proof {
                lemma_torn_down_farewell(before, self@, t@, session_closed);
            }
            Request::Finish(Outcome::Closed(t))
        } else {
            self.stage = Stage::Idle;
            if pending {
                Request::Finish(Outcome::Pending)
            } else {
                Request::Finish(Outcome::Ready)
            }
        }
    }

    /// Goes on to the session's commands once the framed stream has been
    /// dealt with.
    fn begin_event(&mut self, cx: &mut Context<'_>, session_closed: bool) -> (request: Request)
        requires
            old(self)@.in_flight is None,
            balanced(old(self)@),
        ensures
            stepped(old(self)@, session_closed, final(self)@, request@),
            !(request is Read),
            final(self)@.stage != Stage::Flush,
            old(self)@.dead ==> finished(
                old(self)@,
                false,
                session_closed,
                final(self)@,
                request@,
            ) && closes(request@),
            !closes(request@) ==> same_queues(old(self)@, final(self)@),
            request@ == RequestView::Finish(OutcomeView::Pending) ==> old(self)@.frame_pending,
    {
        match self.recv_event(cx) {
            EventStep::Settled(progress) => {
                let pending = self.frame_pending && progress == Progress::Pending;
                self.finish(cx, pending, session_closed)
            },
            EventStep::Sending(step) => {
                self.stage = Stage::Command;
                match step {
                    SendStep::Offer(frame) => Request::Offer(frame),
                    _ => Request::Flush,
                }
            },
        }
    }

    /// Goes on once reading the framed stream has ended for this cycle.
    fn after_frame(
        &mut self,
        cx: &mut Context<'_>,
        step: FrameStep,
        session_closed: bool,
        Ghost(before): Ghost<SubstreamView>,
    ) -> (request: Request)
        requires
            old(self)@.in_flight is None,
            balanced(old(self)@),
            same_substream(before, old(self)@),
            before.dead ==> old(self)@.dead,
            step@ is Read ==> frame_gate(old(self)@) is None,
            step@ matches FrameStepView::Closed(teardown) ==> farewell(teardown, old(self)@)
                && old(self)@.stage == Stage::Finished && old(self)@.dead,
        ensures
            stepped(before, session_closed, final(self)@, request@),
            step@ is Read ==> request@ == RequestView::Read && final(self)@ == (SubstreamView {
                stage: Stage::Frame,
                ..old(self)@
            }),
            step@ matches FrameStepView::Closed(teardown) ==> request@ == RequestView::Finish(
                OutcomeView::Closed(teardown),
            ) && final(self)@ == old(self)@,
            final(self)@.stage != Stage::Flush,
            match step@ {
                FrameStepView::Settled(progress) => {
                    let mid = SubstreamView {
                        frame_pending: progress == Progress::Pending,
                        ..old(self)@
                    };
                    &&& !(request is Read)
                    &&& old(self)@.dead ==> finished(
                        mid,
                        false,
                        session_closed,
                        final(self)@,
                        request@,
                    ) && closes(request@)
                    &&& !closes(request@) ==> same_queues(old(self)@, final(self)@)
                    &&& progress != Progress::Pending ==> request@ != RequestView::Finish(
                        OutcomeView::Pending,
                    )
                },
                _ => true,
            },
    {
        match step {
            FrameStep::Read => {
                self.stage = Stage::Frame;
                Request::Read
            },
            FrameStep::Settled(progress) => {
                self.frame_pending = progress == Progress::Pending;
                self.begin_event(cx, session_closed)
            },
            FrameStep::Closed(t) => Request::Finish(Outcome::Closed(t)),
        }
    }

    /// Goes on once a step of the writing has been taken.
    fn after_write(
        &mut self,
        cx: &mut Context<'_>,
        step: SendStep,
        session_closed: bool,
        Ghost(before): Ghost<SubstreamView>,
    ) -> (request: Request)
        requires
            old(self)@.stage == Stage::Flush || old(self)@.stage == Stage::Command,
            balanced(old(self)@),
            step is Offer <==> old(self)@.in_flight is Some,
            step matches SendStep::Offer(frame) ==> (old(self)@.in_flight->0).1 == octets(frame),
            same_substream(before, old(self)@),
            before.dead ==> old(self)@.dead,
        ensures
            stepped(before, session_closed, final(self)@, request@),
            step@ is Offer || step@ is Flush ==> request@ == as_request(step@) && final(self)@
                == old(self)@,
            match step@ {
                SendStepView::Failed(error) => {
                    &&& closes(request@)
                    &&& if old(self)@.stage == Stage::Flush {
                        error_closed(
                            old(self)@,
                            final(self)@,
                            request@->Finish_0->Closed_0,
                            error,
                            session_closed,
                        )
                    } else {
                        exists|reported_state: SubstreamView|
                            {
                                &&& #[trigger] write_failed(old(self)@, error, reported_state)
                                &&& torn_down(
                                    wound_up(reported_state),
                                    final(self)@,
                                    request@->Finish_0->Closed_0,
                                    session_closed,
                                )
                            }
                    }
                },
                SendStepView::Done => {
                    &&& final(self)@.stage != Stage::Flush
                    &&& if old(self)@.stage == Stage::Command {
                        finished(old(self)@, false, session_closed, final(self)@, request@)
                    } else {
                        &&& frame_gate(old(self)@) is None ==> request@ == RequestView::Read
                        &&& request@ is Read ==> final(self)@ == SubstreamView {
                            stage: Stage::Frame,
                            ..old(self)@
                        }
                    }
                },
                _ => true,
            },
    {
        match step {
            SendStep::Offer(frame) => Request::Offer(frame),
            SendStep::Flush => Request::Flush,
            SendStep::Done => {
                if self.stage == Stage::Flush {
                    let step = self.recv_frame(cx, None, session_closed);
                    self.after_frame(cx, step, session_closed, Ghost(before))
                } else {
                    self.finish(cx, false, session_closed)
                }
            },
            SendStep::Failed(error) => {
                if self.stage == Stage::Flush {
                    let ghost prepared = failed(self@, error@);
                    let t = self.error_close(cx, error, session_closed);
                    proof {
                        lemma_torn_down_farewell(prepared, self@, t@, session_closed);
                    }
                    Request::Finish(Outcome::Closed(t))
                } else {
                    let ghost failure = error@;
                    self.send_failed(cx, error);
                    let ghost reported_state = self@;
                    let request = self.finish(cx, false, session_closed);
                    proof {
                        assert(write_failed(old(self)@, failure, reported_state) && torn_down(
                            wound_up(reported_state),
                            self@,
                            request@->Finish_0->Closed_0,
                            session_closed,
                        ));
                    }
                    request
                }
            },
        }
    }

    /// Asks again for what has not been answered.
    fn repeat(&self) -> (request: Request)
        requires
            outstanding(self@) is Some,
        ensures
            Some(request@) == outstanding(self@),
    {
        match &self.in_flight {
            Some((_, frame)) => match self.stage {
                Stage::Frame => Request::Read,
                _ => Request::Offer(frame.clone()),
            },
            None => match self.stage {
                Stage::Frame => Request::Read,
                _ => Request::Flush,
            },
        }
    }

    /// Begins a cycle, given whether the session was found closing. A dead
    /// substream, and any substream of a closing session, is closed at once.
    fn begin(&mut self, cx: &mut Context<'_>, session_closed: bool) -> (request: Request)
        requires
            old(self)@.stage == Stage::Idle,
            old(self)@.in_flight is None,
            balanced(old(self)@),
        ensures
            final(self).wf(),
            stepped(old(self)@, session_closed, final(self)@, request@),
            if old(self)@.dead || session_closed {
                &&& closes(request@)
                &&& torn_down(
                    old(self)@,
                    final(self)@,
                    request@->Finish_0->Closed_0,
                    session_closed,
                )
            } else {
                begun(old(self)@, final(self)@, request@)
            },
    {
        if self.dead || session_closed {
            let t = self.close_proto_stream(cx, session_closed);
            proof {
                lemma_torn_down_farewell(old(self)@, self@, t@, session_closed);
            }
            return Request::Finish(Outcome::Closed(t));
        }
        let step = self.flush(cx);
        self.stage = Stage::Flush;
        self.after_write(cx, step, session_closed, Ghost(old(self)@))
    }

    /// Takes up the writing with the sink's answer.
    fn resume_write(&mut self, cx: &mut Context<'_>, sink: SinkReply, session_closed: bool) -> (
    request: Request)
        requires
            old(self)@.stage == Stage::Flush || old(self)@.stage == Stage::Command,
            old(self).wf(),
        ensures
            final(self).wf(),
            stepped(old(self)@, session_closed, final(self)@, request@),
            !answers_sink(old(self)@, Some(sink@)) ==> final(self)@ == old(self)@ && Some(request@)
                == outstanding(old(self)@),
            answers_sink(old(self)@, Some(sink@)) ==> written(
                old(self)@,
                sink@,
                session_closed,
                final(self)@,
                request@,
            ),
    {
        let fits = match &sink {
            SinkReply::Offer(_) => self.in_flight.is_some(),
            SinkReply::Flush(_) => self.in_flight.is_none(),
        };
        if !fits {
            return self.repeat();
        }
        let step = self.send_data(Some(sink));
        self.after_write(cx, step, session_closed, Ghost(old(self)@))
    }

    /// Takes up the cycle with what reading the framed stream gave.
    fn resume_frame(&mut self, cx: &mut Context<'_>, frame: FrameReply, session_closed: bool)
        -> (request: Request)
        requires
            old(self)@.stage == Stage::Frame,
            old(self)@.in_flight is None,
            balanced(old(self)@),
        ensures
            final(self).wf(),
            stepped(old(self)@, session_closed, final(self)@, request@),
            read(old(self)@, frame@, session_closed, final(self)@, request@),
    {
        let ghost error = match frame@ {
            FrameReplyView::Rejected(e) => Some(e),
            FrameReplyView::Failed(e) => Some(e),
            _ => None,
        };
        let step = self.recv_frame(cx, Some(frame), session_closed);
        proof {
            if let FrameStepView::Closed(t) = step@ {
                lemma_torn_down_farewell(
                    failed(old(self)@, error->0),
                    self@,
                    t,
                    session_closed,
                );
            }
        }
        self.after_frame(cx, step, session_closed, Ghost(old(self)@))
    }

    /// One step of the substream's poll cycle, for a given reading of the
    /// session's closed flag.
    ///
    /// This is [`Substream::poll_next`] with the flag as an argument: what it
    /// does is decided for every reading. The contract is [`cycled`].
    pub fn step(&mut self, cx: &mut Context<'_>, reply: Option<Reply>, session_closed: bool) -> (
    request: Request)
        requires
            old(self).wf(),
        ensures
            final(self).wf(),
            cycled(old(self)@, reply_view(reply), session_closed, final(self)@, request@),
    {
        match self.stage {
            Stage::Finished => Request::Finish(
                Outcome::Closed(Teardown { service: None, session: None, upward: None }),
            ),
            Stage::Idle => self.begin(cx, session_closed),
            Stage::Flush | Stage::Command => match reply {
                Some(Reply::Sink(sink)) => self.resume_write(cx, sink, session_closed),
                _ => self.repeat(),
            },
            Stage::Frame => match reply {
                Some(Reply::Stream(frame)) => self.resume_frame(cx, frame, session_closed),
                _ => self.repeat(),
            },
        }
    }

    /// One step of the substream's poll cycle.
    ///
    /// Call it with `None` to begin a cycle. It answers with a request;
    /// perform it on the framed stream and call again with the reply, until
    /// the request is `Finish`. A reply that does not answer the last
    /// request changes nothing and has the request repeated. Once the
    /// substream is closed it stays closed, with nothing more to deliver.
    ///
    /// A cycle first writes out what is buffered, high lane first; then
    /// reads one frame, unless too many events wait for the session; then
    /// takes one command from the session, unless too many frames wait to be
    /// written. It closes the substream when it finds it dead or the session
    /// closing.
    ///
    /// Each call reads the session's closed flag once and is then
    /// [`Substream::step`] for that reading.
    pub fn poll_next(&mut self, cx: &mut Context<'_>, reply: Option<Reply>) -> (request: Request)
        requires
            old(self).wf(),
        ensures
            final(self).wf(),
            cycled(old(self)@, reply_view(reply), true, final(self)@, request@) || cycled(
                old(self)@,
                reply_view(reply),
                false,
                final(self)@,
                request@,
            ),
    {
        let session_closed = self.context.closed();
        self.step(cx, reply, session_closed)
    }
}

/// Hands the pieces of a substream together one by one.
pub struct SubstreamBuilder {
    id: StreamId,
    proto_id: ProtocolId,
    keep_buffer: bool,
    config: SessionConfig,
    event: bool,
    context: Arc<SessionContext>,
    service_proto_sender: Option<Buffer<ServiceProtocolEvent>>,
    session_proto_sender: Option<Buffer<SessionProtocolEvent>>,
    event_sender: Sender<ProtocolEvent>,
    event_receiver: Receiver<(Priority, ProtocolEvent)>,
}

impl View for SubstreamBuilder {
    type V = SubstreamBuilderView;

    closed spec fn view(&self) -> SubstreamBuilderView {
        SubstreamBuilderView {
            id: self.id,
            proto_id: self.proto_id,
            session: self.context@,
            event: self.event,
            keep_buffer: self.keep_buffer,
            config: self.config,
            service: match self.service_proto_sender {
                Some(buffer) => Some(service_events(buffer@)),
                None => None,
            },
            session_events: match self.session_proto_sender {
                Some(buffer) => Some(session_events(buffer@)),
                None => None,
            },
            service_handed: match self.service_proto_sender {
                Some(buffer) => service_events(buffer.handed()),
                None => Seq::empty(),
            },
            session_handed: match self.session_proto_sender {
                Some(buffer) => session_events(buffer.handed()),
                None => Seq::empty(),
            },
        }
    }
}

impl SubstreamBuilder {
    /// A builder for a substream of the session `context`, which reports
    /// through `event_sender` and takes commands from `event_receiver`. Until
    /// told otherwise the substream has stream id 0 and protocol id 0, the
    /// default caps, no handler, drops waiting events when it ends, and does
    /// not report frames to the session.
    pub fn new(
        event_sender: Sender<ProtocolEvent>,
        event_receiver: Receiver<(Priority, ProtocolEvent)>,
        context: Arc<SessionContext>,
    ) -> (r: Self)
        ensures
            r@ == (SubstreamBuilderView {
                id: 0,
                proto_id: ProtocolId::new_spec(0),
                session: context@,
                event: false,
                keep_buffer: false,
                config: SessionConfig { send_event_size: 512, recv_event_size: 512 },
                service: None,
                session_events: None,
                service_handed: Seq::empty(),
                session_handed: Seq::empty(),
            }),
    {
        SubstreamBuilder {
            service_proto_sender: None,
            session_proto_sender: None,
            event_receiver,
            event_sender,
            context,
            id: 0,
            proto_id: ProtocolId::new(0),
            keep_buffer: false,
            config: SessionConfig::default(),
            event: false,
        }
    }

    pub fn stream_id(self, id: StreamId) -> (r: Self)
        ensures
            r@ == (SubstreamBuilderView { id, ..self@ }),
    {
        let mut builder = self;
        builder.id = id;
        builder
    }

    pub fn proto_id(self, id: ProtocolId) -> (r: Self)
        ensures
            r@ == (SubstreamBuilderView { proto_id: id, ..self@ }),
    {
        let mut builder = self;
        builder.proto_id = id;
        builder
    }

    pub fn config(self, config: SessionConfig) -> (r: Self)
        ensures
            r@ == (SubstreamBuilderView { config, ..self@ }),
    {
        let mut builder = self;
        builder.config = config;
        builder
    }

    pub fn keep_buffer(self, keep: bool) -> (r: Self)
        ensures
            r@ == (SubstreamBuilderView { keep_buffer: keep, ..self@ }),
    {
        let mut builder = self;
        builder.keep_buffer = keep;
        builder
    }

    pub fn event(self, event: bool) -> (r: Self)
        ensures
            r@ == (SubstreamBuilderView { event, ..self@ }),
    {
        let mut builder = self;
        builder.event = event;
        builder
    }

    pub fn service_proto_sender(self, sender: Option<Buffer<ServiceProtocolEvent>>) -> (r:
        Self)
        ensures
            r@ == (SubstreamBuilderView {
                service: match sender {
                    Some(buffer) => Some(service_events(buffer@)),
                    None => None,
                },
                service_handed: match sender {
                    Some(buffer) => service_events(buffer.handed()),
                    None => Seq::empty(),
                },
                ..self@
            }),
    {
        let mut builder = self;
        builder.service_proto_sender = sender;
        builder
    }

    pub fn session_proto_sender(self, sender: Option<Buffer<SessionProtocolEvent>>) -> (r:
        Self)
        ensures
            r@ == (SubstreamBuilderView {
                session_events: match sender {
                    Some(buffer) => Some(session_events(buffer@)),
                    None => None,
                },
                session_handed: match sender {
                    Some(buffer) => session_events(buffer.handed()),
                    None => Seq::empty(),
                },
                ..self@
            }),
    {
        let mut builder = self;
        builder.session_proto_sender = sender;
        builder
    }

    /// The substream as told.
    pub fn build(self) -> (r: Substream)
        ensures
            r@ == built(self@),
            r.wf(),
    {
        let r = Substream {
            id: self.id,
            proto_id: self.proto_id,
            config: self.config,
            context: self.context,
            event: self.event,
            high_write_buf: VecDeque::new(),
            write_buf: VecDeque::new(),
            dead: false,
            keep_buffer: self.keep_buffer,
            event_sender: Buffer::new(self.event_sender),
            event_receiver: self.event_receiver,
            service_proto_sender: self.service_proto_sender,
            session_proto_sender: self.session_proto_sender,
            stage: Stage::Idle,
            in_flight: None,
            frame_pending: false,
            ledger: Ghost(Ledger { enqueued: 0, released: 0, dropped: 0 }),
        };
        proof {
            assert(frames(r.high_write_buf@) =~= Seq::<Seq<u8>>::empty());
            assert(frames(r.write_buf@) =~= Seq::<Seq<u8>>::empty());
            assert(upward_events(r.event_sender@) =~= Seq::<ProtocolEventView>::empty());
            assert(write_order(r@) =~= Seq::<Seq<u8>>::empty());
        }
        r
    }
}

} // verus!
