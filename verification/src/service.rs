//! The commands that users send to the service, and the handle through
//! which they send them.

use crate::channel::{clone_unbounded_sender, unbounded_send, Offer, Priority};
use crate::context::share;
use crate::error::SendErrorKind;
use crate::frame::octets;
use crate::multiaddr::{supported, Multiaddr, ProtocolView};
use crate::{ProtocolId, SessionId};
use bytes::Bytes;
use futures::channel::mpsc::UnboundedSender;
use std::sync::atomic::{AtomicBool, Ordering};
use std::sync::Arc;
use std::time::Duration;
use vstd::prelude::*;

verus! {

/// Which protocols of a session are meant.
pub enum TargetProtocol {
    /// Every registered protocol.
    All,
    /// One protocol.
    Single(ProtocolId),
    /// The protocols listed.
    Multi(Vec<ProtocolId>),
}

/// A [`TargetProtocol`] with its list as a plain sequence.
pub enum TargetProtocolView {
    All,
    Single(ProtocolId),
    Multi(Seq<ProtocolId>),
}

impl View for TargetProtocol {
    type V = TargetProtocolView;

    open spec fn view(&self) -> TargetProtocolView {
        match self {
            TargetProtocol::All => TargetProtocolView::All,
            TargetProtocol::Single(id) => TargetProtocolView::Single(*id),
            TargetProtocol::Multi(ids) => TargetProtocolView::Multi(ids@),
        }
    }
}

/// Which sessions are meant.
pub enum TargetSession {
    /// Every session.
    All,
    /// One session.
    Single(SessionId),
    /// The sessions listed.
    Multi(Vec<SessionId>),
}

/// A [`TargetSession`] with its list as a plain sequence.
pub enum TargetSessionView {
    All,
    Single(SessionId),
    Multi(Seq<SessionId>),
}

impl View for TargetSession {
    type V = TargetSessionView;

    open spec fn view(&self) -> TargetSessionView {
        match self {
            TargetSession::All => TargetSessionView::All,
            TargetSession::Single(id) => TargetSessionView::Single(*id),
            TargetSession::Multi(ids) => TargetSessionView::Multi(ids@),
        }
    }
}

/// A protocol as the service knows it.
pub struct ProtocolInfo {
    pub name: String,
    pub support_versions: Vec<String>,
}

/// One command to the service.
#[allow(inconsistent_fields)]
pub enum ServiceTask {
    /// Begin to accept connections on `address`.
    Listen { address: Multiaddr },
    /// Connect to `address` and open the protocols of `target`.
    Dial { address: Multiaddr, target: TargetProtocol },
    /// Close a session.
    Disconnect { session_id: SessionId },
    /// Send `data` on a protocol to the sessions of `target`.
    ProtocolMessage { target: TargetSession, proto_id: ProtocolId, priority: Priority, data: Bytes },
    /// Open protocols on a session.
    ProtocolOpen { session_id: SessionId, target: TargetProtocol },
    /// Close a protocol on a session.
    ProtocolClose { session_id: SessionId, proto_id: ProtocolId },
    /// Notify a service-level handler every `interval` with `token`.
    SetProtocolNotify { proto_id: ProtocolId, interval: Duration, token: u64 },
    /// Stop the notification registered under `token`.
    RemoveProtocolNotify { proto_id: ProtocolId, token: u64 },
    /// Notify a session-level handler every `interval` with `token`.
    SetProtocolSessionNotify {
        session_id: SessionId,
        proto_id: ProtocolId,
        interval: Duration,
        token: u64,
    },
    /// Stop the notification registered under `token`.
    RemoveProtocolSessionNotify { session_id: SessionId, proto_id: ProtocolId, token: u64 },
    /// Shut the service down: at once if `true`, else in order.
    Shutdown(bool),
}

/// A [`ServiceTask`] with its data as plain sequences.
#[allow(inconsistent_fields)]
pub enum ServiceTaskView {
    Listen { address: Seq<ProtocolView> },
    Dial { address: Seq<ProtocolView>, target: TargetProtocolView },
    Disconnect { session_id: SessionId },
    ProtocolMessage {
        target: TargetSessionView,
        proto_id: ProtocolId,
        priority: Priority,
        data: Seq<u8>,
    },
    ProtocolOpen { session_id: SessionId, target: TargetProtocolView },
    ProtocolClose { session_id: SessionId, proto_id: ProtocolId },
    SetProtocolNotify { proto_id: ProtocolId, interval: Duration, token: u64 },
    RemoveProtocolNotify { proto_id: ProtocolId, token: u64 },
    SetProtocolSessionNotify {
        session_id: SessionId,
        proto_id: ProtocolId,
        interval: Duration,
        token: u64,
    },
    RemoveProtocolSessionNotify { session_id: SessionId, proto_id: ProtocolId, token: u64 },
    Shutdown(bool),
}

impl View for ServiceTask {
    type V = ServiceTaskView;

    open spec fn view(&self) -> ServiceTaskView {
        match self {
            ServiceTask::Listen { address } => ServiceTaskView::Listen { address: address@ },
            ServiceTask::Dial { address, target } => ServiceTaskView::Dial {
                address: address@,
                target: target@,
            },
            ServiceTask::Disconnect { session_id } => ServiceTaskView::Disconnect {
                session_id: *session_id,
            },
            ServiceTask::ProtocolMessage {
                target,
                proto_id,
                priority,
                data,
            } => ServiceTaskView::ProtocolMessage {
                target: target@,
                proto_id: *proto_id,
                priority: *priority,
                data: octets(*data),
            },
            ServiceTask::ProtocolOpen { session_id, target } => ServiceTaskView::ProtocolOpen {
                session_id: *session_id,
                target: target@,
            },
            ServiceTask::ProtocolClose { session_id, proto_id } => ServiceTaskView::ProtocolClose {
                session_id: *session_id,
                proto_id: *proto_id,
            },
            ServiceTask::SetProtocolNotify {
                proto_id,
                interval,
                token,
            } => ServiceTaskView::SetProtocolNotify {
                proto_id: *proto_id,
                interval: *interval,
                token: *token,
            },
            ServiceTask::RemoveProtocolNotify {
                proto_id,
                token,
            } => ServiceTaskView::RemoveProtocolNotify { proto_id: *proto_id, token: *token },
            ServiceTask::SetProtocolSessionNotify {
                session_id,
                proto_id,
                interval,
                token,
            } => ServiceTaskView::SetProtocolSessionNotify {
                session_id: *session_id,
                proto_id: *proto_id,
                interval: *interval,
                token: *token,
            },
            ServiceTask::RemoveProtocolSessionNotify {
                session_id,
                proto_id,
                token,
            } => ServiceTaskView::RemoveProtocolSessionNotify {
                session_id: *session_id,
                proto_id: *proto_id,
                token: *token,
            },
            ServiceTask::Shutdown(quick) => ServiceTaskView::Shutdown(*quick),
        }
    }
}

/// The lane in which a command travels to the service: everything that
/// controls the service or a session is urgent; data and timers are
/// urgent only where the caller says so.
pub open spec fn lane(task: ServiceTaskView) -> Priority {
    match task {
        ServiceTaskView::ProtocolMessage { priority, .. } => priority,
        ServiceTaskView::SetProtocolNotify { .. }
        | ServiceTaskView::RemoveProtocolNotify { .. }
        | ServiceTaskView::SetProtocolSessionNotify { .. }
        | ServiceTaskView::RemoveProtocolSessionNotify { .. } => Priority::Normal,
        _ => Priority::High,
    }
}

impl ServiceTask {
    /// The command to listen on `address`.
    pub fn listen(address: Multiaddr) -> (t: ServiceTask)
        ensures
            t@ == (ServiceTaskView::Listen { address: address@ }),
    {
        ServiceTask::Listen { address }
    }

    /// The command to connect to `address` and open the protocols of
    /// `target`.
    pub fn dial(address: Multiaddr, target: TargetProtocol) -> (t: ServiceTask)
        ensures
            t@ == (ServiceTaskView::Dial { address: address@, target: target@ }),
    {
        ServiceTask::Dial { address, target }
    }

    /// The command to close a session.
    pub fn disconnect(session_id: SessionId) -> (t: ServiceTask)
        ensures
            t@ == (ServiceTaskView::Disconnect { session_id }),
    {
        ServiceTask::Disconnect { session_id }
    }

    /// The command to send `data` on `proto_id` to the sessions of `target`
    /// in the lane `priority`.
    pub fn message(target: TargetSession, proto_id: ProtocolId, priority: Priority, data: Bytes)
        -> (t: ServiceTask)
        ensures
            t@ == (ServiceTaskView::ProtocolMessage {
                target: target@,
                proto_id,
                priority,
                data: octets(data),
            }),
    {
        ServiceTask::ProtocolMessage { target, proto_id, priority, data }
    }

    /// The command to open the protocols of `target` on a session.
    pub fn open(session_id: SessionId, target: TargetProtocol) -> (t: ServiceTask)
        ensures
            t@ == (ServiceTaskView::ProtocolOpen { session_id, target: target@ }),
    {
        ServiceTask::ProtocolOpen { session_id, target }
    }

    /// The command to close one protocol on a session.
    pub fn close(session_id: SessionId, proto_id: ProtocolId) -> (t: ServiceTask)
        ensures
            t@ == (ServiceTaskView::ProtocolClose { session_id, proto_id }),
    {
        ServiceTask::ProtocolClose { session_id, proto_id }
    }

    /// The command to notify a service-level handler every `interval` with
    /// `token`.
    pub fn set_service_notify(proto_id: ProtocolId, interval: Duration, token: u64) -> (t:
        ServiceTask)
        ensures
            t@ == (ServiceTaskView::SetProtocolNotify { proto_id, interval, token }),
    {
        ServiceTask::SetProtocolNotify { proto_id, interval, token }
    }

    /// The command to stop notifying a service-level handler with `token`.
    pub fn remove_service_notify(proto_id: ProtocolId, token: u64) -> (t: ServiceTask)
        ensures
            t@ == (ServiceTaskView::RemoveProtocolNotify { proto_id, token }),
    {
        ServiceTask::RemoveProtocolNotify { proto_id, token }
    }

    /// The command to notify a session-level handler every `interval` with
    /// `token`.
    pub fn set_session_notify(
        session_id: SessionId,
        proto_id: ProtocolId,
        interval: Duration,
        token: u64,
    ) -> (t: ServiceTask)
        ensures
            t@ == (ServiceTaskView::SetProtocolSessionNotify {
                session_id,
                proto_id,
                interval,
                token,
            }),
    {
        ServiceTask::SetProtocolSessionNotify { session_id, proto_id, interval, token }
    }

    /// The command to stop notifying a session-level handler with `token`.
    pub fn remove_session_notify(session_id: SessionId, proto_id: ProtocolId, token: u64) -> (t:
        ServiceTask)
        ensures
            t@ == (ServiceTaskView::RemoveProtocolSessionNotify { session_id, proto_id, token }),
    {
        ServiceTask::RemoveProtocolSessionNotify { session_id, proto_id, token }
    }

    /// The command to shut the service down: at once if `quick`, else in
    /// order.
    pub fn shutdown(quick: bool) -> (t: ServiceTask)
        ensures
            t@ == ServiceTaskView::Shutdown(quick),
    {
        ServiceTask::Shutdown(quick)
    }

    /// What goes on the service's channel for this command: the command
    /// itself, with the lane in which it travels.
    pub fn command(self) -> (c: (Priority, ServiceTask))
        ensures
            c == (lane(self@), self),
    {
        (self.priority(), self)
    }

    /// The lane in which this command travels to the service.
    pub fn priority(&self) -> (r: Priority)
        ensures
            r == lane(self@),
    {
        match self {
            ServiceTask::ProtocolMessage { priority, .. } => *priority,
            ServiceTask::SetProtocolNotify { .. }
            | ServiceTask::RemoveProtocolNotify { .. }
            | ServiceTask::SetProtocolSessionNotify { .. }
            | ServiceTask::RemoveProtocolSessionNotify { .. } => Priority::Normal,
            _ => Priority::High,
        }
    }
}

/// How a command fared, given whether the service had shut down and what
/// its channel did with the command.
pub open spec fn send_outcome<T>(closed: bool, offer: Offer<T>) -> Result<(), SendErrorKind> {
    if closed {
        Err(SendErrorKind::BrokenPipe)
    } else {
        match offer {
            Offer::Sent => Ok(()),
            Offer::Full(_) => Err(SendErrorKind::WouldBlock),
            Offer::Closed(_) => Err(SendErrorKind::BrokenPipe),
        }
    }
}

/// What the channel's answer to a command means to the caller.
pub fn judge<T>(offer: Offer<T>) -> (r: Result<(), SendErrorKind>)
    ensures
        r == send_outcome(false, offer),
{
    match offer {
        Offer::Sent => Ok(()),
        Offer::Full(_) => Err(SendErrorKind::WouldBlock),
        Offer::Closed(_) => Err(SendErrorKind::BrokenPipe),
    }
}

/// Whether `id` is among the registered protocols.
pub open spec fn registered(protocols: Seq<(ProtocolId, ProtocolInfo)>, id: ProtocolId) -> bool {
    exists|i: int| 0 <= i < protocols.len() && (#[trigger] protocols[i]).0 == id
}

/// Whether no id is registered twice.
pub open spec fn distinct_ids(protocols: Seq<(ProtocolId, ProtocolInfo)>) -> bool {
    forall|i: int, j: int|
        0 <= i < j < protocols.len() ==> (#[trigger] protocols[i]).0 != (#[trigger] protocols[j]).0
}

/// Whether `id` is among the ids of `list`.
fn is_listed(list: &Vec<(ProtocolId, ProtocolInfo)>, id: ProtocolId) -> (r: bool)
    ensures
        r == registered(list@, id),
{
    let mut i: usize = 0;
    while i < list.len()
        invariant
            i <= list@.len(),
            forall|j: int| 0 <= j < i ==> (#[trigger] list@[j]).0 != id,
        decreases list@.len() - i,
    {
        if list[i].0 == id {
            return true;
        }
        i += 1;
    }
    false
}

/// The handle through which users command the service. It can be cloned
/// and used from any thread.
///
/// It knows the registered protocols, each under one id.
pub struct ServiceControl {
    task_sender: UnboundedSender<(Priority, ServiceTask)>,
    proto_infos: Arc<Vec<(ProtocolId, ProtocolInfo)>>,
    closed: Arc<AtomicBool>,
}

impl ServiceControl {
    /// The registered protocols.
    pub closed spec fn protocols(&self) -> Seq<(ProtocolId, ProtocolInfo)> {
        self.proto_infos@
    }

    #[verifier::type_invariant]
    spec fn each_id_once(self) -> bool {
        distinct_ids(self.proto_infos@)
    }

    /// A handle for a service that knows the protocols of `proto_infos`.
    /// Where an id occurs twice in the list, its first entry counts.
    pub fn new(
        task_sender: UnboundedSender<(Priority, ServiceTask)>,
        proto_infos: Vec<(ProtocolId, ProtocolInfo)>,
        closed: Arc<AtomicBool>,
    ) -> (r: Self)
        ensures
            forall|id: ProtocolId|
                registered(r.protocols(), id) <==> registered(proto_infos@, id),
            distinct_ids(proto_infos@) ==> r.protocols() == proto_infos@,
    {
        let mut rest = proto_infos;
        let mut known: Vec<(ProtocolId, ProtocolInfo)> = Vec::new();
        while rest.len() > 0
            invariant
                distinct_ids(known@),
                forall|id: ProtocolId|
                    registered(known@, id) || registered(rest@, id) <==> registered(
                        proto_infos@,
                        id,
                    ),
                distinct_ids(proto_infos@) ==> known@ + rest@ == proto_infos@,
            decreases rest@.len(),
        {
            let ghost before_rest = rest@;
            let ghost before_known = known@;
            let entry = rest.remove(0);
            assert(before_rest[0] == entry);
            let listed = is_listed(&known, entry.0);
            if !listed {
                known.push(entry);
            }
            proof {
                assert forall|id: ProtocolId|
                    registered(known@, id) || registered(rest@, id) <==> registered(
                        proto_infos@,
                        id,
                    ) by {
                    if registered(before_rest, id) {
                        let k = choose|k: int|
                            0 <= k < before_rest.len() && (#[trigger] before_rest[k]).0 == id;
                        if k == 0 {
                            if !listed {
                                assert(known@[known@.len() - 1].0 == id);
                            }
                        } else {
                            assert(rest@[k - 1].0 == id);
                        }
                    }
                    if registered(rest@, id) {
                        let k = choose|k: int| 0 <= k < rest@.len() && (#[trigger] rest@[k]).0 == id;
                        assert(before_rest[k + 1].0 == id);
                    }
                    if registered(known@, id) && !registered(before_known, id) {
                        assert(before_rest[0].0 == id);
                    }
                    if registered(before_known, id) {
                        let k = choose|k: int|
                            0 <= k < before_known.len() && (#[trigger] before_known[k]).0 == id;
                        assert(known@[k].0 == id);
                    }
                }
                if distinct_ids(proto_infos@) {
                    assert(before_known + before_rest == proto_infos@);
                    if listed {
                        let k = choose|k: int|
                            0 <= k < before_known.len() && (#[trigger] before_known[k]).0
                                == entry.0;
                        assert(proto_infos@[k] == before_known[k]);
                        assert(proto_infos@[before_known.len() as int] == before_rest[0]);
                    }
                    assert(known@ + rest@ =~= before_known + before_rest);
                }
            }
        }
        assert(distinct_ids(proto_infos@) ==> known@ =~= proto_infos@);
        ServiceControl { task_sender, proto_infos: Arc::new(known), closed }
    }

    /// The registered protocols. No id is among them twice.
    pub fn proto_infos(&self) -> (r: &Arc<Vec<(ProtocolId, ProtocolInfo)>>)
        ensures
            r@ == self.protocols(),
            distinct_ids(self.protocols()),
    {
        proof {
            use_type_invariant(self);
        }
        &self.proto_infos
    }

    /// Whether `proto_id` is a registered protocol.
    pub fn is_registered(&self, proto_id: ProtocolId) -> (r: bool)
        ensures
            r == registered(self.protocols(), proto_id),
    {
        is_listed(&self.proto_infos, proto_id)
    }

    /// Puts `task` on the service's channel, in its lane, unless the
    /// service has shut down.
    ///
    /// What goes on the channel is [`ServiceTask::command`]; what the
    /// channel's answer means is [`judge`]. Fails with `BrokenPipe` where the
    /// service is gone and with `WouldBlock` where its channel is full.
    pub fn send(&self, task: ServiceTask) -> (r: Result<(), SendErrorKind>)
        ensures
            r is Ok || r == Err::<(), SendErrorKind>(SendErrorKind::BrokenPipe) || r == Err::<
                (),
                SendErrorKind,
            >(SendErrorKind::WouldBlock),
    {
        if self.closed.load(Ordering::SeqCst) {
            return Err(SendErrorKind::BrokenPipe);
        }
        judge(unbounded_send(&self.task_sender, task.command()))
    }

    /// Asks the service to listen on `address`. Fails with
    /// `TransportNotSupported`, and asks nothing, exactly where the
    /// transport cannot carry the address.
    pub fn listen(&self, address: Multiaddr) -> (r: Result<(), SendErrorKind>)
        ensures
            !supported(address@) <==> r == Err::<(), SendErrorKind>(
                SendErrorKind::TransportNotSupported,
            ),
    {
        if !address.is_supported() {
            return Err(SendErrorKind::TransportNotSupported);
        }
        self.send(ServiceTask::listen(address))
    }

    /// Asks the service to connect to `address`. Fails with
    /// `TransportNotSupported`, and asks nothing, exactly where the
    /// transport cannot carry the address.
    pub fn dial(&self, address: Multiaddr, target: TargetProtocol) -> (r: Result<
        (),
        SendErrorKind,
    >)
        ensures
            !supported(address@) <==> r == Err::<(), SendErrorKind>(
                SendErrorKind::TransportNotSupported,
            ),
    {
        if !address.is_supported() {
            return Err(SendErrorKind::TransportNotSupported);
        }
        self.send(ServiceTask::dial(address, target))
    }

    /// Asks the service to close a session.
    pub fn disconnect(&self, session_id: SessionId) -> (r: Result<(), SendErrorKind>)
        ensures
            r is Ok || r == Err::<(), SendErrorKind>(SendErrorKind::BrokenPipe) || r == Err::<
                (),
                SendErrorKind,
            >(SendErrorKind::WouldBlock),
    {
        self.send(ServiceTask::disconnect(session_id))
    }

    /// Sends `data` on `proto_id` to the sessions of `target`, in the lane
    /// `priority`. Fails with `ProtoNotOpen`, and sends nothing, exactly
    /// where the protocol is not registered.
    fn message(
        &self,
        target: TargetSession,
        proto_id: ProtocolId,
        priority: Priority,
        data: Bytes,
    ) -> (r: Result<(), SendErrorKind>)
        ensures
            !registered(self.protocols(), proto_id) <==> r == Err::<(), SendErrorKind>(
                SendErrorKind::ProtoNotOpen,
            ),
            r is Ok || r == Err::<(), SendErrorKind>(SendErrorKind::ProtoNotOpen) || r == Err::<
                (),
                SendErrorKind,
            >(SendErrorKind::BrokenPipe) || r == Err::<(), SendErrorKind>(
                SendErrorKind::WouldBlock,
            ),
    {
        if !self.is_registered(proto_id) {
            return Err(SendErrorKind::ProtoNotOpen);
        }
        self.send(ServiceTask::message(target, proto_id, priority, data))
    }

    /// Sends `data` on `proto_id` to one session, as data.
    pub fn send_message_to(&self, session_id: SessionId, proto_id: ProtocolId, data: Bytes) -> (r:
        Result<(), SendErrorKind>)
        ensures
            !registered(self.protocols(), proto_id) <==> r == Err::<(), SendErrorKind>(
                SendErrorKind::ProtoNotOpen,
            ),
    {
        self.message(TargetSession::Single(session_id), proto_id, Priority::Normal, data)
    }

    /// Sends `data` on `proto_id` to one session, ahead of data.
    pub fn quick_send_message_to(
        &self,
        session_id: SessionId,
        proto_id: ProtocolId,
        data: Bytes,
    ) -> (r: Result<(), SendErrorKind>)
        ensures
            !registered(self.protocols(), proto_id) <==> r == Err::<(), SendErrorKind>(
                SendErrorKind::ProtoNotOpen,
            ),
    {
        self.message(TargetSession::Single(session_id), proto_id, Priority::High, data)
    }

    /// Sends `data` on `proto_id` to the sessions of `target`, as data.
    pub fn filter_broadcast(&self, target: TargetSession, proto_id: ProtocolId, data: Bytes) -> (r:
        Result<(), SendErrorKind>)
        ensures
            !registered(self.protocols(), proto_id) <==> r == Err::<(), SendErrorKind>(
                SendErrorKind::ProtoNotOpen,
            ),
    {
        self.message(target, proto_id, Priority::Normal, data)
    }

    /// Sends `data` on `proto_id` to the sessions of `target`, ahead of
    /// data.
    pub fn quick_filter_broadcast(
        &self,
        target: TargetSession,
        proto_id: ProtocolId,
        data: Bytes,
    ) -> (r: Result<(), SendErrorKind>)
        ensures
            !registered(self.protocols(), proto_id) <==> r == Err::<(), SendErrorKind>(
                SendErrorKind::ProtoNotOpen,
            ),
    {
        self.message(target, proto_id, Priority::High, data)
    }

    /// Asks the service to open one protocol on a session.
    pub fn open_protocol(&self, session_id: SessionId, proto_id: ProtocolId) -> (r: Result<
        (),
        SendErrorKind,
    >)
        ensures
            r is Ok || r == Err::<(), SendErrorKind>(SendErrorKind::BrokenPipe) || r == Err::<
                (),
                SendErrorKind,
            >(SendErrorKind::WouldBlock),
    {
        self.send(ServiceTask::open(session_id, TargetProtocol::Single(proto_id)))
    }

    /// Asks the service to open the protocols of `target` on a session.
    pub fn open_protocols(&self, session_id: SessionId, target: TargetProtocol) -> (r: Result<
        (),
        SendErrorKind,
    >)
        ensures
            r is Ok || r == Err::<(), SendErrorKind>(SendErrorKind::BrokenPipe) || r == Err::<
                (),
                SendErrorKind,
            >(SendErrorKind::WouldBlock),
    {
        self.send(ServiceTask::open(session_id, target))
    }

    /// Asks the service to close one protocol on a session.
    pub fn close_protocol(&self, session_id: SessionId, proto_id: ProtocolId) -> (r: Result<
        (),
        SendErrorKind,
    >)
        ensures
            r is Ok || r == Err::<(), SendErrorKind>(SendErrorKind::BrokenPipe) || r == Err::<
                (),
                SendErrorKind,
            >(SendErrorKind::WouldBlock),
    {
        self.send(ServiceTask::close(session_id, proto_id))
    }

    /// Registers a timer on a service-level handler.
    pub fn set_service_notify(&self, proto_id: ProtocolId, interval: Duration, token: u64) -> (r:
        Result<(), SendErrorKind>)
        ensures
            r is Ok || r == Err::<(), SendErrorKind>(SendErrorKind::BrokenPipe) || r == Err::<
                (),
                SendErrorKind,
            >(SendErrorKind::WouldBlock),
    {
        self.send(ServiceTask::set_service_notify(proto_id, interval, token))
    }

    /// Registers a timer on a session-level handler.
    pub fn set_session_notify(
        &self,
        session_id: SessionId,
        proto_id: ProtocolId,
        interval: Duration,
        token: u64,
    ) -> (r: Result<(), SendErrorKind>)
        ensures
            r is Ok || r == Err::<(), SendErrorKind>(SendErrorKind::BrokenPipe) || r == Err::<
                (),
                SendErrorKind,
            >(SendErrorKind::WouldBlock),
    {
        self.send(ServiceTask::set_session_notify(session_id, proto_id, interval, token))
    }

    /// Cancels a timer of a service-level handler.
    pub fn remove_service_notify(&self, proto_id: ProtocolId, token: u64) -> (r: Result<
        (),
        SendErrorKind,
    >)
        ensures
            r is Ok || r == Err::<(), SendErrorKind>(SendErrorKind::BrokenPipe) || r == Err::<
                (),
                SendErrorKind,
            >(SendErrorKind::WouldBlock),
    {
        self.send(ServiceTask::remove_service_notify(proto_id, token))
    }

    /// Cancels a timer of a session-level handler.
    pub fn remove_session_notify(&self, session_id: SessionId, proto_id: ProtocolId, token: u64)
        -> (r: Result<(), SendErrorKind>)
        ensures
            r is Ok || r == Err::<(), SendErrorKind>(SendErrorKind::BrokenPipe) || r == Err::<
                (),
                SendErrorKind,
            >(SendErrorKind::WouldBlock),
    {
        self.send(ServiceTask::remove_session_notify(session_id, proto_id, token))
    }

    /// Asks the service to shut down in order: listeners first, then every
    /// substream, then every session, then the service.
    pub fn close(&self) -> (r: Result<(), SendErrorKind>)
        ensures
            r is Ok || r == Err::<(), SendErrorKind>(SendErrorKind::BrokenPipe) || r == Err::<
                (),
                SendErrorKind,
            >(SendErrorKind::WouldBlock),
    {
        self.send(ServiceTask::shutdown(false))
    }

    /// Asks the service to shut down at once. Messages on their way may be
    /// lost.
    pub fn shutdown(&self) -> (r: Result<(), SendErrorKind>)
        ensures
            r is Ok || r == Err::<(), SendErrorKind>(SendErrorKind::BrokenPipe) || r == Err::<
                (),
                SendErrorKind,
            >(SendErrorKind::WouldBlock),
    {
        self.send(ServiceTask::shutdown(true))
    }
}

impl Clone for ServiceControl {
    /// Another handle on the same service.
    fn clone(&self) -> (r: Self)
        ensures
            r.protocols() == self.protocols(),
    {
        proof {
            use_type_invariant(self);
        }
        ServiceControl {
            task_sender: clone_unbounded_sender(&self.task_sender),
            proto_infos: share(&self.proto_infos),
            closed: share(&self.closed),
        }
    }
}

} // verus!
