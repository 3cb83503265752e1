//! What a session knows about itself, shared by every actor that serves it.

use crate::buffer::{is_tail_of, PriorityBuffer, SendResult};
use crate::channel::Priority;
use crate::error::SendErrorKind;
use crate::frame::octets;
use crate::multiaddr::{supported, Multiaddr, ProtocolView};
use crate::service::{
    distinct_ids, registered, ProtocolInfo, ServiceControl, ServiceTask, TargetProtocol,
    TargetSession,
};
use crate::session::{SessionEvent, SessionEventView};
use crate::{ProtocolId, SessionId};
use bytes::Bytes;
use futures::channel::mpsc::{Sender, UnboundedSender};
use std::sync::atomic::{AtomicBool, AtomicUsize, Ordering};
use std::sync::Arc;
use std::task::Context;
use std::time::Duration;
use vstd::prelude::*;

verus! {

/// Which side opened the connection.
#[derive(Clone, Copy, PartialEq, Eq, Structural, Debug)]
pub enum SessionType {
    /// The remote peer dialed us.
    Inbound,
    /// We dialed the remote peer.
    Outbound,
}

impl SessionType {
    pub fn is_inbound(self) -> (r: bool)
        ensures
            r == (self == SessionType::Inbound),
    {
        match self {
            SessionType::Inbound => true,
            SessionType::Outbound => false,
        }
    }

    pub fn is_outbound(self) -> (r: bool)
        ensures
            r == (self == SessionType::Outbound),
    {
        match self {
            SessionType::Inbound => false,
            SessionType::Outbound => true,
        }
    }
}

/// The encoded public key of a remote peer.
pub struct PublicKey {
    pub key: Vec<u8>,
}

impl View for PublicKey {
    type V = Seq<u8>;

    open spec fn view(&self) -> Seq<u8> {
        self.key@
    }
}

impl Clone for PublicKey {
    fn clone(&self) -> (r: Self)
        ensures
            r@ == self@,
    {
        PublicKey { key: self.key.clone() }
    }
}

/// `Arc::clone`: another handle on the same shared value.
#[verifier::external_body]
pub(crate) fn share<T>(shared: &Arc<T>) -> (r: Arc<T>)
    ensures
        r == *shared,
{
    shared.clone()
}

/// The fixed part of a session context.
pub struct SessionContextView {
    pub id: SessionId,
    pub address: Seq<ProtocolView>,
    pub ty: SessionType,
    pub remote_pubkey: Option<Seq<u8>>,
}

/// Basic facts about one connection, and the two values that its actors
/// share: whether the session has begun to close, and how many bytes wait
/// between the user and the transport.
///
/// Both shared values are atomics that other actors update at any time, so a
/// read tells what held at some moment, and no contract here speaks of their
/// values.
pub struct SessionContext {
    /// The session's id.
    pub id: SessionId,
    /// The remote address.
    pub address: Multiaddr,
    /// Which side opened the connection.
    pub ty: SessionType,
    /// The remote public key, where the transport is encrypted.
    pub remote_pubkey: Option<PublicKey>,
    closed: Arc<AtomicBool>,
    pending_data_size: Arc<AtomicUsize>,
}

impl View for SessionContext {
    type V = SessionContextView;

    closed spec fn view(&self) -> SessionContextView {
        SessionContextView {
            id: self.id,
            address: self.address@,
            ty: self.ty,
            remote_pubkey: match self.remote_pubkey {
                Some(key) => Some(key@),
                None => None,
            },
        }
    }
}

impl SessionContext {
    pub fn new(
        id: SessionId,
        address: Multiaddr,
        ty: SessionType,
        remote_pubkey: Option<PublicKey>,
        closed: Arc<AtomicBool>,
        pending_data_size: Arc<AtomicUsize>,
    ) -> (r: SessionContext)
        ensures
            r@.id == id,
            r@.address == address@,
            r@.ty == ty,
            r@.remote_pubkey == match remote_pubkey {
                Some(key) => Some(key@),
                None => None,
            },
    {
        SessionContext { id, address, ty, remote_pubkey, closed, pending_data_size }
    }

    /// The session's id.
    pub fn id(&self) -> (id: SessionId)
        ensures
            id == self@.id,
    {
        self.id
    }

    /// Which side opened the connection.
    pub fn ty(&self) -> (ty: SessionType)
        ensures
            ty == self@.ty,
    {
        self.ty
    }

    /// Adds `data_size` to the bytes that wait. Called when data enters a
    /// send buffer.
    pub fn incr_pending_data_size(&self, data_size: usize) {
        self.pending_data_size.fetch_add(data_size, Ordering::Relaxed);
    }

    /// Takes `data_size` off the bytes that wait. Called when a frame has
    /// been handed to the transport.
    pub fn decr_pending_data_size(&self, data_size: usize) {
        self.pending_data_size.fetch_sub(data_size, Ordering::Relaxed);
    }

    /// Whether the session had begun to close when asked.
    pub fn closed(&self) -> bool {
        self.closed.load(Ordering::SeqCst)
    }

    /// Marks the session as closing. There is no way back.
    pub fn close(&self) {
        self.closed.store(true, Ordering::SeqCst);
    }

    /// The bytes that waited when asked.
    pub fn pending_data_size(&self) -> usize {
        self.pending_data_size.load(Ordering::Relaxed)
    }
}

impl Clone for SessionContext {
    /// A second context for the same session: same facts, same shared values.
    fn clone(&self) -> (r: Self)
        ensures
            r@ == self@,
    {
        SessionContext {
            id: self.id,
            address: self.address.clone(),
            ty: self.ty,
            remote_pubkey: match &self.remote_pubkey {
                Some(key) => Some(key.clone()),
                None => None,
            },
            closed: share(&self.closed),
            pending_data_size: share(&self.pending_data_size),
        }
    }
}

pub open spec fn session_commands(queue: Seq<SessionEvent>) -> Seq<SessionEventView> {
    queue.map_values(|event: SessionEvent| event@)
}

/// The service's end of the way to one session: the commands that wait for
/// the session, in two lanes, and the session's context.
pub struct SessionController {
    buffer: PriorityBuffer<SessionEvent>,
    inner: Arc<SessionContext>,
    charged: Ghost<nat>,
}

impl SessionController {
    /// The commands that wait in the high lane, oldest first.
    pub closed spec fn high(&self) -> Seq<SessionEventView> {
        session_commands(self.buffer.high())
    }

    /// The commands that wait in the normal lane, oldest first.
    pub closed spec fn normal(&self) -> Seq<SessionEventView> {
        session_commands(self.buffer.normal())
    }

    /// The commands of the high lane that the session's channel has taken.
    pub closed spec fn handed_high(&self) -> Seq<SessionEventView> {
        session_commands(self.buffer.handed_high())
    }

    /// The commands of the normal lane that the session's channel has
    /// taken.
    pub closed spec fn handed_normal(&self) -> Seq<SessionEventView> {
        session_commands(self.buffer.handed_normal())
    }

    /// Whether the logs of what the channel has taken are those of `before`.
    pub open spec fn same_handed(&self, before: &Self) -> bool {
        &&& self.handed_high() == before.handed_high()
        &&& self.handed_normal() == before.handed_normal()
    }

    /// The session that the commands are for.
    pub closed spec fn session(&self) -> SessionContextView {
        self.inner@
    }

    /// The bytes that this controller has added to the session's count of
    /// waiting bytes.
    pub closed spec fn charged(&self) -> nat {
        self.charged@
    }

    pub fn new(event_sender: Sender<SessionEvent>, inner: Arc<SessionContext>) -> (r: Self)
        ensures
            r.high() == Seq::<SessionEventView>::empty(),
            r.normal() == Seq::<SessionEventView>::empty(),
            r.session() == inner@,
            r.charged() == 0,
            r.handed_high() == Seq::<SessionEventView>::empty(),
            r.handed_normal() == Seq::<SessionEventView>::empty(),
    {
        let r = SessionController {
            buffer: PriorityBuffer::new(event_sender),
            inner,
            charged: Ghost(0),
        };
        assert(r.high() =~= Seq::<SessionEventView>::empty());
        assert(r.normal() =~= Seq::<SessionEventView>::empty());
        assert(r.handed_high() =~= Seq::<SessionEventView>::empty());
        assert(r.handed_normal() =~= Seq::<SessionEventView>::empty());
        r
    }

    /// The session's context.
    pub fn context(&self) -> (r: &Arc<SessionContext>)
        ensures
            r@ == self.session(),
    {
        &self.inner
    }

    /// Queues `event` for the session in the lane `priority`.
    pub fn push(&mut self, priority: Priority, event: SessionEvent)
        ensures
            final(self).high() == if priority == Priority::High {
                old(self).high().push(event@)
            } else {
                old(self).high()
            },
            final(self).normal() == if priority == Priority::High {
                old(self).normal()
            } else {
                old(self).normal().push(event@)
            },
            final(self).session() == old(self).session(),
            final(self).charged() == old(self).charged(),
            final(self).same_handed(old(self)),
    {
        if priority.is_high() {
            self.buffer.push_high(event);
            assert(self.high() =~= old(self).high().push(event@));
        } else {
            self.buffer.push_normal(event);
            assert(self.normal() =~= old(self).normal().push(event@));
        }
    }

    /// Queues `data` for the protocol `proto_id` of the session, and adds
    /// its length to the session's count of waiting bytes.
    pub fn push_message(&mut self, proto_id: ProtocolId, priority: Priority, data: Bytes)
        ensures
            final(self).high() == if priority == Priority::High {
                old(self).high().push(
                    SessionEventView::ProtocolMessage {
                        id: old(self).session().id,
                        proto_id,
                        data: octets(data),
                    },
                )
            } else {
                old(self).high()
            },
            final(self).normal() == if priority == Priority::High {
                old(self).normal()
            } else {
                old(self).normal().push(
                    SessionEventView::ProtocolMessage {
                        id: old(self).session().id,
                        proto_id,
                        data: octets(data),
                    },
                )
            },
            final(self).session() == old(self).session(),
            final(self).charged() == old(self).charged() + octets(data).len(),
            final(self).same_handed(old(self)),
    {
        let bytes = self.queue_message(proto_id, priority, data);
        self.inner.incr_pending_data_size(bytes);
    }

    /// Queues `data` for the protocol `proto_id` of the session and tells
    /// how many bytes that adds to what waits. The session's count is not
    /// touched here: `push_message` adds the bytes returned.
    fn queue_message(&mut self, proto_id: ProtocolId, priority: Priority, data: Bytes) -> (bytes:
        usize)
        ensures
            bytes == octets(data).len(),
            final(self).high() == if priority == Priority::High {
                old(self).high().push(
                    SessionEventView::ProtocolMessage {
                        id: old(self).session().id,
                        proto_id,
                        data: octets(data),
                    },
                )
            } else {
                old(self).high()
            },
            final(self).normal() == if priority == Priority::High {
                old(self).normal()
            } else {
                old(self).normal().push(
                    SessionEventView::ProtocolMessage {
                        id: old(self).session().id,
                        proto_id,
                        data: octets(data),
                    },
                )
            },
            final(self).session() == old(self).session(),
            final(self).charged() == old(self).charged() + bytes,
            final(self).same_handed(old(self)),
    {
        let bytes = data.len();
        let message_event = SessionEvent::ProtocolMessage { id: self.inner.id(), proto_id, data };
        self.push(priority, message_event);
        self.charged = Ghost((self.charged@ + bytes) as nat);
        bytes
    }

    /// Hands waiting commands to the session as far as its channel takes
    /// them, the high lane first.
    pub fn try_send(&mut self, cx: &mut Context<'_>) -> (r: SendResult)
        ensures
            is_tail_of(final(self).high(), old(self).high()),
            is_tail_of(final(self).normal(), old(self).normal()),
            final(self).normal() != old(self).normal() ==> final(self).high().len() == 0,
            final(self).handed_high() + final(self).high() == old(self).handed_high() + old(
                self,
            ).high(),
            final(self).handed_normal() + final(self).normal() == old(self).handed_normal() + old(
                self,
            ).normal(),
            r == SendResult::Done <==> final(self).high().len() == 0 && final(self).normal().len()
                == 0,
            final(self).session() == old(self).session(),
            final(self).charged() == old(self).charged(),
    {
        let r = self.buffer.try_send(cx);
        proof {
            let f = |event: SessionEvent| event@;
            assert((self.buffer.handed_high() + self.buffer.high()).map_values(f)
                =~= self.handed_high() + self.high());
            assert((old(self).buffer.handed_high() + old(self).buffer.high()).map_values(f)
                =~= old(self).handed_high() + old(self).high());
            assert((self.buffer.handed_normal() + self.buffer.normal()).map_values(f)
                =~= self.handed_normal() + self.normal());
            assert((old(self).buffer.handed_normal() + old(self).buffer.normal()).map_values(f)
                =~= old(self).handed_normal() + old(self).normal());
            crate::buffer::lemma_tail_map(
                self.buffer.high(),
                old(self).buffer.high(),
                |event: SessionEvent| event@,
            );
            crate::buffer::lemma_tail_map(
                self.buffer.normal(),
                old(self).buffer.normal(),
                |event: SessionEvent| event@,
            );
            if self.normal() != old(self).normal() {
                assert(self.buffer.normal() != old(self).buffer.normal());
            }
        }
        r
    }
}

/// A key pair of the encrypted transport, as its encoded keys.
pub struct SecioKeyPair {
    pub secret_key: Vec<u8>,
    pub public_key: PublicKey,
}

impl Clone for SecioKeyPair {
    fn clone(&self) -> (r: Self)
        ensures
            r.secret_key@ == self.secret_key@,
            r.public_key@ == self.public_key@,
    {
        SecioKeyPair { secret_key: self.secret_key.clone(), public_key: self.public_key.clone() }
    }
}

pub open spec fn addresses(list: Seq<Multiaddr>) -> Seq<Seq<ProtocolView>> {
    list.map_values(|addr: Multiaddr| addr@)
}

/// What a handler may ask of the service while it handles an event.
pub struct ServiceContext {
    listens: Vec<Multiaddr>,
    key_pair: Option<SecioKeyPair>,
    inner: ServiceControl,
}

impl ServiceContext {
    /// The addresses that the service listens on.
    pub closed spec fn listen_addrs(&self) -> Seq<Seq<ProtocolView>> {
        addresses(self.listens@)
    }

    /// The registered protocols.
    pub closed spec fn protocols_spec(&self) -> Seq<(ProtocolId, ProtocolInfo)> {
        self.inner.protocols()
    }

    /// The service's own key pair, if its transport is encrypted.
    pub closed spec fn key_pair_spec(&self) -> Option<SecioKeyPair> {
        self.key_pair
    }

    pub fn new(
        task_sender: UnboundedSender<(Priority, ServiceTask)>,
        proto_infos: Vec<(ProtocolId, ProtocolInfo)>,
        key_pair: Option<SecioKeyPair>,
        closed: Arc<AtomicBool>,
    ) -> (r: Self)
        ensures
            r.listen_addrs() == Seq::<Seq<ProtocolView>>::empty(),
            forall|id: ProtocolId|
                registered(r.protocols_spec(), id) <==> registered(proto_infos@, id),
            distinct_ids(proto_infos@) ==> r.protocols_spec() == proto_infos@,
            r.key_pair_spec() == key_pair,
    {
        let r = ServiceContext {
            inner: ServiceControl::new(task_sender, proto_infos, closed),
            key_pair,
            listens: Vec::new(),
        };
        assert(r.listen_addrs() =~= Seq::<Seq<ProtocolView>>::empty());
        r
    }

    /// Asks the service to listen on `address`. Fails with
    /// `TransportNotSupported`, and asks nothing, exactly where the
    /// transport cannot carry the address.
    pub fn listen(&self, address: Multiaddr) -> (r: Result<(), SendErrorKind>)
        ensures
            !supported(address@) <==> r == Err::<(), SendErrorKind>(
                SendErrorKind::TransportNotSupported,
            ),
    {
        self.inner.listen(address)
    }

    /// Asks the service to connect to `address`. Fails with
    /// `TransportNotSupported`, and asks nothing, exactly where the
    /// transport cannot carry the address.
    pub fn dial(&self, address: Multiaddr, target: TargetProtocol) -> (r: Result<
        (),
        SendErrorKind,
    >)
        ensures
            !supported(address@) <==> r == Err::<(), SendErrorKind>(
                SendErrorKind::TransportNotSupported,
            ),
    {
        self.inner.dial(address, target)
    }

    /// Asks the service to close a session.
    pub fn disconnect(&self, session_id: SessionId) -> (r: Result<(), SendErrorKind>)
        ensures
            r is Ok || r == Err::<(), SendErrorKind>(SendErrorKind::BrokenPipe) || r == Err::<
                (),
                SendErrorKind,
            >(SendErrorKind::WouldBlock),
    {
        self.inner.disconnect(session_id)
    }

    /// Sends `data` on `proto_id` to one session, as data.
    pub fn send_message_to(&self, session_id: SessionId, proto_id: ProtocolId, data: Bytes) -> (r:
        Result<(), SendErrorKind>)
        ensures
            !registered(self.protocols_spec(), proto_id) <==> r == Err::<(), SendErrorKind>(
                SendErrorKind::ProtoNotOpen,
            ),
    {
        self.inner.send_message_to(session_id, proto_id, data)
    }

    /// Sends `data` on `proto_id` to one session, ahead of data.
    pub fn quick_send_message_to(
        &self,
        session_id: SessionId,
        proto_id: ProtocolId,
        data: Bytes,
    ) -> (r: Result<(), SendErrorKind>)
        ensures
            !registered(self.protocols_spec(), proto_id) <==> r == Err::<(), SendErrorKind>(
                SendErrorKind::ProtoNotOpen,
            ),
    {
        self.inner.quick_send_message_to(session_id, proto_id, data)
    }

    /// Sends `data` on `proto_id` to the sessions of `session_ids`, as data.
    pub fn filter_broadcast(
        &self,
        session_ids: TargetSession,
        proto_id: ProtocolId,
        data: Bytes,
    ) -> (r: Result<(), SendErrorKind>)
        ensures
            !registered(self.protocols_spec(), proto_id) <==> r == Err::<(), SendErrorKind>(
                SendErrorKind::ProtoNotOpen,
            ),
    {
        self.inner.filter_broadcast(session_ids, proto_id, data)
    }

    /// Sends `data` on `proto_id` to the sessions of `session_ids`, ahead
    /// of data.
    pub fn quick_filter_broadcast(
        &self,
        session_ids: TargetSession,
        proto_id: ProtocolId,
        data: Bytes,
    ) -> (r: Result<(), SendErrorKind>)
        ensures
            !registered(self.protocols_spec(), proto_id) <==> r == Err::<(), SendErrorKind>(
                SendErrorKind::ProtoNotOpen,
            ),
    {
        self.inner.quick_filter_broadcast(session_ids, proto_id, data)
    }

    /// Asks the service to open one protocol on a session.
    pub fn open_protocol(&self, session_id: SessionId, proto_id: ProtocolId) -> (r: Result<
        (),
        SendErrorKind,
    >)
        ensures
            r is Ok || r == Err::<(), SendErrorKind>(SendErrorKind::BrokenPipe) || r == Err::<
                (),
                SendErrorKind,
            >(SendErrorKind::WouldBlock),
    {
        self.inner.open_protocol(session_id, proto_id)
    }

    /// Asks the service to open the protocols of `target` on a session.
    pub fn open_protocols(&self, session_id: SessionId, target: TargetProtocol) -> (r: Result<
        (),
        SendErrorKind,
    >)
        ensures
            r is Ok || r == Err::<(), SendErrorKind>(SendErrorKind::BrokenPipe) || r == Err::<
                (),
                SendErrorKind,
            >(SendErrorKind::WouldBlock),
    {
        self.inner.open_protocols(session_id, target)
    }

    /// Asks the service to close one protocol on a session.
    pub fn close_protocol(&self, session_id: SessionId, proto_id: ProtocolId) -> (r: Result<
        (),
        SendErrorKind,
    >)
        ensures
            r is Ok || r == Err::<(), SendErrorKind>(SendErrorKind::BrokenPipe) || r == Err::<
                (),
                SendErrorKind,
            >(SendErrorKind::WouldBlock),
    {
        self.inner.close_protocol(session_id, proto_id)
    }

    /// The handle on the service.
    pub fn control(&self) -> (r: &ServiceControl)
        ensures
            r.protocols() == self.protocols_spec(),
    {
        &self.inner
    }

    /// The registered protocols. No id is among them twice.
    pub fn protocols(&self) -> (r: &Arc<Vec<(ProtocolId, ProtocolInfo)>>)
        ensures
            r@ == self.protocols_spec(),
            distinct_ids(self.protocols_spec()),
    {
        self.inner.proto_infos()
    }

    /// The service's own key pair.
    pub fn key_pair(&self) -> (r: Option<&SecioKeyPair>)
        ensures
            match (r, self.key_pair_spec()) {
                (Some(pair), Some(own)) => *pair == own,
                (None, None) => true,
                _ => false,
            },
    {
        self.key_pair.as_ref()
    }

    /// The addresses that the service listens on.
    pub fn listens(&self) -> (r: &[Multiaddr])
        ensures
            addresses(r@) == self.listen_addrs(),
    {
        self.listens.as_slice()
    }

    /// Replaces the addresses that the service listens on.
    pub fn update_listens(&mut self, address_list: Vec<Multiaddr>)
        ensures
            final(self).listen_addrs() == addresses(address_list@),
            final(self).protocols_spec() == old(self).protocols_spec(),
            final(self).key_pair_spec() == old(self).key_pair_spec(),
    {
        self.listens = address_list;
    }

    /// Registers a timer on a service-level handler.
    pub fn set_service_notify(&self, proto_id: ProtocolId, interval: Duration, token: u64) -> (r:
        Result<(), SendErrorKind>)
        ensures
            r is Ok || r == Err::<(), SendErrorKind>(SendErrorKind::BrokenPipe) || r == Err::<
                (),
                SendErrorKind,
            >(SendErrorKind::WouldBlock),
    {
        self.inner.set_service_notify(proto_id, interval, token)
    }

    /// Registers a timer on a session-level handler.
    pub fn set_session_notify(
        &self,
        session_id: SessionId,
        proto_id: ProtocolId,
        interval: Duration,
        token: u64,
    ) -> (r: Result<(), SendErrorKind>)
        ensures
            r is Ok || r == Err::<(), SendErrorKind>(SendErrorKind::BrokenPipe) || r == Err::<
                (),
                SendErrorKind,
            >(SendErrorKind::WouldBlock),
    {
        self.inner.set_session_notify(session_id, proto_id, interval, token)
    }

    /// Cancels a timer of a service-level handler.
    pub fn remove_service_notify(&self, proto_id: ProtocolId, token: u64) -> (r: Result<
        (),
        SendErrorKind,
    >)
        ensures
            r is Ok || r == Err::<(), SendErrorKind>(SendErrorKind::BrokenPipe) || r == Err::<
                (),
                SendErrorKind,
            >(SendErrorKind::WouldBlock),
    {
        self.inner.remove_service_notify(proto_id, token)
    }

    /// Cancels a timer of a session-level handler.
    pub fn remove_session_notify(&self, session_id: SessionId, proto_id: ProtocolId, token: u64)
        -> (r: Result<(), SendErrorKind>)
        ensures
            r is Ok || r == Err::<(), SendErrorKind>(SendErrorKind::BrokenPipe) || r == Err::<
                (),
                SendErrorKind,
            >(SendErrorKind::WouldBlock),
    {
        self.inner.remove_session_notify(session_id, proto_id, token)
    }

    /// Asks the service to shut down in order: listeners first, then every
    /// substream, then every session, then the service.
    pub fn close(&self) -> (r: Result<(), SendErrorKind>)
        ensures
            r is Ok || r == Err::<(), SendErrorKind>(SendErrorKind::BrokenPipe) || r == Err::<
                (),
                SendErrorKind,
            >(SendErrorKind::WouldBlock),
    {
        self.inner.close()
    }

    /// Asks the service to shut down at once. Messages on their way may be
    /// lost.
    pub fn shutdown(&self) -> (r: Result<(), SendErrorKind>)
        ensures
            r is Ok || r == Err::<(), SendErrorKind>(SendErrorKind::BrokenPipe) || r == Err::<
                (),
                SendErrorKind,
            >(SendErrorKind::WouldBlock),
    {
        self.inner.shutdown()
    }

    /// A second context on the same service.
    pub fn clone_self(&self) -> (r: Self)
        ensures
            r.listen_addrs() == self.listen_addrs(),
            r.protocols_spec() == self.protocols_spec(),
    {
        let mut listens: Vec<Multiaddr> = Vec::new();
        let mut i: usize = 0;
        while i < self.listens.len()
            invariant
                i <= self.listens@.len(),
                listens@.len() == i,
                forall|j: int| 0 <= j < i ==> listens@[j]@ == self.listens@[j]@,
            decreases self.listens@.len() - i,
        {
            listens.push(self.listens[i].clone());
            i += 1;
        }
        let r = ServiceContext {
            inner: self.inner.clone(),
            key_pair: match &self.key_pair {
                Some(pair) => Some(pair.clone()),
                None => None,
            },
            listens,
        };
        assert(r.listen_addrs() =~= self.listen_addrs());
        r
    }
}

/// What a protocol handler may ask of the service.
pub struct ProtocolContext {
    inner: ServiceContext,
    /// The handler's protocol.
    pub proto_id: ProtocolId,
}

impl ProtocolContext {
    /// The protocol that the handler serves.
    pub closed spec fn protocol(&self) -> ProtocolId {
        self.proto_id
    }

    /// The registered protocols.
    pub closed spec fn protocols_spec(&self) -> Seq<(ProtocolId, ProtocolInfo)> {
        self.inner.protocols_spec()
    }

    /// The service context beneath.
    pub closed spec fn service_spec(&self) -> ServiceContext {
        self.inner
    }

    pub fn new(service_context: ServiceContext, proto_id: ProtocolId) -> (r: Self)
        ensures
            r.protocol() == proto_id,
            r.service_spec() == service_context,
            r.protocols_spec() == service_context.protocols_spec(),
    {
        ProtocolContext { inner: service_context, proto_id }
    }

    /// The context as seen while an event of `session` is handled.
    pub fn as_mut<'a>(&'a mut self, session: &'a SessionContext) -> (r: ProtocolContextMutRef<'a>)
        ensures
            r.protocol() == old(self).protocol(),
            r.protocols_spec() == old(self).protocols_spec(),
            r.session_spec() == session@,
            final(self).protocol() == old(self).protocol(),
            final(self).protocols_spec() == old(self).protocols_spec(),
    {
        ProtocolContextMutRef { inner: self, session }
    }

    /// The service context beneath.
    pub fn service(&self) -> (r: &ServiceContext)
        ensures
            *r == self.service_spec(),
            r.protocols_spec() == self.protocols_spec(),
    {
        &self.inner
    }

    /// Replaces the addresses that the service listens on.
    pub fn update_listens(&mut self, address_list: Vec<Multiaddr>)
        ensures
            final(self).service_spec().listen_addrs() == addresses(address_list@),
            final(self).protocol() == old(self).protocol(),
            final(self).protocols_spec() == old(self).protocols_spec(),
    {
        self.inner.update_listens(address_list);
    }
}

/// What a protocol handler may ask of the service while it handles an
/// event of one session.
pub struct ProtocolContextMutRef<'a> {
    inner: &'a ProtocolContext,
    /// The session whose event is handled.
    pub session: &'a SessionContext,
}

impl<'a> ProtocolContextMutRef<'a> {
    /// The protocol that the handler serves.
    pub closed spec fn protocol(&self) -> ProtocolId {
        self.inner.proto_id
    }

    /// The registered protocols.
    pub closed spec fn protocols_spec(&self) -> Seq<(ProtocolId, ProtocolInfo)> {
        self.inner.inner.protocols_spec()
    }

    /// The session whose event is handled.
    pub closed spec fn session_spec(&self) -> SessionContextView {
        self.session@
    }

    /// Sends `data` on the handler's protocol to the session at hand, as
    /// data.
    pub fn send_message(&self, data: Bytes) -> (r: Result<(), SendErrorKind>)
        ensures
            !registered(self.protocols_spec(), self.protocol()) <==> r == Err::<
                (),
                SendErrorKind,
            >(SendErrorKind::ProtoNotOpen),
    {
        let proto_id = self.proto_id();
        self.inner.inner.send_message_to(self.session.id(), proto_id, data)
    }

    /// Sends `data` on the handler's protocol to the session at hand, ahead
    /// of data.
    pub fn quick_send_message(&self, data: Bytes) -> (r: Result<(), SendErrorKind>)
        ensures
            !registered(self.protocols_spec(), self.protocol()) <==> r == Err::<
                (),
                SendErrorKind,
            >(SendErrorKind::ProtoNotOpen),
    {
        let proto_id = self.proto_id();
        self.inner.inner.quick_send_message_to(self.session.id(), proto_id, data)
    }

    /// The protocol that the handler serves.
    pub fn proto_id(&self) -> (r: ProtocolId)
        ensures
            r == self.protocol(),
    {
        self.inner.proto_id
    }

    /// The protocol context beneath.
    pub fn protocol_context(&self) -> (r: &ProtocolContext)
        ensures
            r.protocol() == self.protocol(),
            r.protocols_spec() == self.protocols_spec(),
    {
        self.inner
    }
}

} // verus!
