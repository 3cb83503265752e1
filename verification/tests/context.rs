use bytes::Bytes;
use futures::channel::mpsc;
use futures::task::noop_waker;
use std::sync::atomic::{AtomicBool, AtomicUsize, Ordering};
use std::sync::Arc;
use std::task::Context;
use std::time::Duration;
use tentacle::buffer::SendResult;
use tentacle::channel::{Offer, Priority};
use tentacle::context::{
    ProtocolContext, PublicKey, SecioKeyPair, ServiceContext, SessionContext, SessionController,
    SessionType,
};
use tentacle::error::{SendErrorKind, TransportErrorKind};
use tentacle::multiaddr::{Multiaddr, Protocol};
use tentacle::service::{
    judge, ProtocolInfo, ServiceControl, ServiceTask, TargetProtocol, TargetSession,
};
use tentacle::session::SessionEvent;
use tentacle::{ProtocolId, SessionId};

fn session(id: usize) -> (Arc<SessionContext>, Arc<AtomicBool>, Arc<AtomicUsize>) {
    let closed = Arc::new(AtomicBool::new(false));
    let pending = Arc::new(AtomicUsize::new(0));
    let address = Multiaddr::from_parts(vec![Protocol::Ip4([1, 2, 3, 4]), Protocol::Tcp(80)]);
    let context = SessionContext::new(
        SessionId::new(id),
        address,
        SessionType::Inbound,
        Some(PublicKey { key: vec![2, 3] }),
        closed.clone(),
        pending.clone(),
    );
    (Arc::new(context), closed, pending)
}

fn info(name: &str) -> ProtocolInfo {
    ProtocolInfo { name: name.to_string(), support_versions: vec!["0.0.1".to_string()] }
}

type Tasks = mpsc::UnboundedReceiver<(Priority, ServiceTask)>;

fn service() -> (ServiceContext, Tasks, Arc<AtomicBool>) {
    let (sender, receiver) = mpsc::unbounded();
    let closed = Arc::new(AtomicBool::new(false));
    let context =
        ServiceContext::new(sender, vec![(ProtocolId::new(1), info("one"))], None, closed.clone());
    (context, receiver, closed)
}

#[test]
fn ids() {
    assert_eq!(ProtocolId::new(5).value(), 5);
    assert_eq!(SessionId::new(6).value(), 6);
    let from: ProtocolId = 1.into();
    assert_eq!(from, ProtocolId::new(1));
    let from: SessionId = 2.into();
    assert_eq!(from, SessionId::new(2));
    assert_eq!(ProtocolId::default().value(), 0);
    assert_eq!(SessionId::default().value(), 0);
    assert!(Priority::High.is_high());
    assert!(!Priority::High.is_normal());
    assert!(Priority::Normal.is_normal());
    assert!(!Priority::Normal.is_high());
    assert!(SessionType::Inbound.is_inbound());
    assert!(!SessionType::Inbound.is_outbound());
    assert!(SessionType::Outbound.is_outbound());
    assert!(!SessionType::Outbound.is_inbound());
}

#[test]
fn session_context_counts_pending_bytes() {
    let (context, closed, pending) = session(4);
    assert_eq!(context.id(), SessionId::new(4));
    assert_eq!(context.ty(), SessionType::Inbound);
    assert_eq!(context.pending_data_size(), 0);
    context.incr_pending_data_size(12);
    context.incr_pending_data_size(30);
    assert_eq!(context.pending_data_size(), 42);
    context.decr_pending_data_size(12);
    assert_eq!(context.pending_data_size(), 30);
    assert_eq!(pending.load(Ordering::SeqCst), 30);
    assert!(!context.closed());
    context.close();
    assert!(context.closed());
    assert!(closed.load(Ordering::SeqCst));
    // A copy shares the flag and the count.
    let copy = SessionContext::clone(&context);
    copy.incr_pending_data_size(1);
    assert_eq!(context.pending_data_size(), 31);
    assert!(copy.closed());
    assert_eq!(copy.id(), SessionId::new(4));
    assert_eq!(copy.remote_pubkey.as_ref().unwrap().key, vec![2, 3]);
    assert_eq!(copy.address.len(), 2);
}

#[test]
fn session_controller_queues_by_priority_and_charges_messages() {
    let waker = noop_waker();
    let mut cx = Context::from_waker(&waker);
    let (context, _, pending) = session(9);
    let (sender, mut receiver) = mpsc::channel(16);
    let mut controller = SessionController::new(sender, context);
    controller.push_message(ProtocolId::new(1), Priority::Normal, Bytes::from("xxxxxxxxxx-0"));
    controller.push(
        Priority::Normal,
        SessionEvent::ProtocolClose { id: SessionId::new(9), proto_id: ProtocolId::new(1) },
    );
    controller.push_message(ProtocolId::new(2), Priority::High, Bytes::from("quick"));
    controller.push(Priority::High, SessionEvent::SessionClose { id: SessionId::new(9) });
    assert_eq!(pending.load(Ordering::SeqCst), 12 + 5);
    assert_eq!(controller.context().pending_data_size(), 17);
    assert_eq!(controller.try_send(&mut cx), SendResult::Done);
    match receiver.try_recv().unwrap() {
        SessionEvent::ProtocolMessage { id, proto_id, data } => {
            assert_eq!(id, SessionId::new(9));
            assert_eq!(proto_id, ProtocolId::new(2));
            assert_eq!(data, Bytes::from("quick"));
        }
        _ => panic!("expected the quick message first"),
    }
    assert!(matches!(receiver.try_recv().unwrap(), SessionEvent::SessionClose { .. }));
    match receiver.try_recv().unwrap() {
        SessionEvent::ProtocolMessage { id, proto_id, data } => {
            assert_eq!(id, SessionId::new(9));
            assert_eq!(proto_id, ProtocolId::new(1));
            assert_eq!(data, Bytes::from("xxxxxxxxxx-0"));
        }
        _ => panic!("expected the message"),
    }
    assert!(matches!(receiver.try_recv().unwrap(), SessionEvent::ProtocolClose { .. }));
    drop(receiver);
    controller.push(Priority::High, SessionEvent::SessionClose { id: SessionId::new(9) });
    assert_eq!(controller.try_send(&mut cx), SendResult::Disconnect);
}

#[test]
fn sending_on_an_unregistered_protocol_is_refused() {
    let (context, mut tasks, _) = service();
    let sid = SessionId::new(1);
    assert_eq!(
        context.send_message_to(sid, ProtocolId::new(2), Bytes::from("x")),
        Err(SendErrorKind::ProtoNotOpen)
    );
    assert_eq!(
        context.quick_send_message_to(sid, ProtocolId::new(2), Bytes::from("x")),
        Err(SendErrorKind::ProtoNotOpen)
    );
    assert_eq!(
        context.filter_broadcast(TargetSession::All, ProtocolId::new(2), Bytes::from("x")),
        Err(SendErrorKind::ProtoNotOpen)
    );
    assert_eq!(
        context.quick_filter_broadcast(TargetSession::All, ProtocolId::new(2), Bytes::from("x")),
        Err(SendErrorKind::ProtoNotOpen)
    );
    assert!(tasks.try_recv().is_err());
    assert!(context.control().is_registered(ProtocolId::new(1)));
    assert!(!context.control().is_registered(ProtocolId::new(2)));
    assert_eq!(context.protocols().len(), 1);
    assert_eq!(context.protocols()[0].1.name, "one");
}

#[test]
fn messages_travel_in_the_lane_asked_for() {
    let (context, mut tasks, _) = service();
    let sid = SessionId::new(3);
    let pid = ProtocolId::new(1);
    assert_eq!(context.send_message_to(sid, pid, Bytes::from("a")), Ok(()));
    assert_eq!(context.quick_send_message_to(sid, pid, Bytes::from("b")), Ok(()));
    assert_eq!(context.filter_broadcast(TargetSession::All, pid, Bytes::from("c")), Ok(()));
    let many = TargetSession::Multi(vec![sid, SessionId::new(4)]);
    assert_eq!(context.quick_filter_broadcast(many, pid, Bytes::from("d")), Ok(()));
    match tasks.try_recv().unwrap() {
        (Priority::Normal, ServiceTask::ProtocolMessage { target, proto_id, priority, data }) => {
            assert!(matches!(target, TargetSession::Single(id) if id == sid));
            assert_eq!(proto_id, pid);
            assert_eq!(priority, Priority::Normal);
            assert_eq!(data, Bytes::from("a"));
        }
        _ => panic!("unexpected task"),
    }
    match tasks.try_recv().unwrap() {
        (Priority::High, ServiceTask::ProtocolMessage { target, priority, data, .. }) => {
            assert!(matches!(target, TargetSession::Single(id) if id == sid));
            assert_eq!(priority, Priority::High);
            assert_eq!(data, Bytes::from("b"));
        }
        _ => panic!("unexpected task"),
    }
    match tasks.try_recv().unwrap() {
        (Priority::Normal, ServiceTask::ProtocolMessage { target, data, .. }) => {
            assert!(matches!(target, TargetSession::All));
            assert_eq!(data, Bytes::from("c"));
        }
        _ => panic!("unexpected task"),
    }
    match tasks.try_recv().unwrap() {
        (Priority::High, ServiceTask::ProtocolMessage { target, data, .. }) => {
            assert!(matches!(target, TargetSession::Multi(ids) if ids.len() == 2));
            assert_eq!(data, Bytes::from("d"));
        }
        _ => panic!("unexpected task"),
    }
}

#[test]
fn control_commands_travel_in_the_high_lane() {
    let (context, mut tasks, _) = service();
    let sid = SessionId::new(3);
    let pid = ProtocolId::new(1);
    let addr = Multiaddr::from_parts(vec![Protocol::Ip4([127, 0, 0, 1]), Protocol::Tcp(0)]);
    assert_eq!(context.listen(addr.clone()), Ok(()));
    assert_eq!(context.dial(addr, TargetProtocol::All), Ok(()));
    assert_eq!(context.disconnect(sid), Ok(()));
    assert_eq!(context.open_protocol(sid, pid), Ok(()));
    assert_eq!(context.open_protocols(sid, TargetProtocol::Multi(vec![pid])), Ok(()));
    assert_eq!(context.close_protocol(sid, pid), Ok(()));
    assert_eq!(context.close(), Ok(()));
    assert_eq!(context.shutdown(), Ok(()));
    assert!(matches!(
        tasks.try_recv().unwrap(),
        (Priority::High, ServiceTask::Listen { address }) if address.len() == 2
    ));
    assert!(matches!(
        tasks.try_recv().unwrap(),
        (Priority::High, ServiceTask::Dial { target: TargetProtocol::All, .. })
    ));
    assert!(matches!(
        tasks.try_recv().unwrap(),
        (Priority::High, ServiceTask::Disconnect { session_id }) if session_id == sid
    ));
    assert!(matches!(
        tasks.try_recv().unwrap(),
        (Priority::High, ServiceTask::ProtocolOpen { session_id, target: TargetProtocol::Single(id) })
            if session_id == sid && id == pid
    ));
    assert!(matches!(
        tasks.try_recv().unwrap(),
        (Priority::High, ServiceTask::ProtocolOpen { target: TargetProtocol::Multi(_), .. })
    ));
    assert!(matches!(
        tasks.try_recv().unwrap(),
        (Priority::High, ServiceTask::ProtocolClose { session_id, proto_id })
            if session_id == sid && proto_id == pid
    ));
    assert!(matches!(tasks.try_recv().unwrap(), (Priority::High, ServiceTask::Shutdown(false))));
    assert!(matches!(tasks.try_recv().unwrap(), (Priority::High, ServiceTask::Shutdown(true))));
    assert!(tasks.try_recv().is_err());
}

#[test]
fn timers_travel_in_the_normal_lane() {
    let (context, mut tasks, _) = service();
    let sid = SessionId::new(3);
    let pid = ProtocolId::new(1);
    let every = Duration::from_secs(10);
    assert_eq!(context.set_service_notify(pid, every, 7), Ok(()));
    assert_eq!(context.set_session_notify(sid, pid, every, 8), Ok(()));
    assert_eq!(context.remove_service_notify(pid, 7), Ok(()));
    assert_eq!(context.remove_session_notify(sid, pid, 8), Ok(()));
    assert!(matches!(
        tasks.try_recv().unwrap(),
        (Priority::Normal, ServiceTask::SetProtocolNotify { proto_id, interval, token: 7 })
            if proto_id == pid && interval == every
    ));
    assert!(matches!(
        tasks.try_recv().unwrap(),
        (Priority::Normal, ServiceTask::SetProtocolSessionNotify { session_id, token: 8, .. })
            if session_id == sid
    ));
    assert!(matches!(
        tasks.try_recv().unwrap(),
        (Priority::Normal, ServiceTask::RemoveProtocolNotify { token: 7, .. })
    ));
    assert!(matches!(
        tasks.try_recv().unwrap(),
        (Priority::Normal, ServiceTask::RemoveProtocolSessionNotify { token: 8, .. })
    ));
}

#[test]
fn a_service_that_is_gone_breaks_the_pipe() {
    let (context, tasks, closed) = service();
    closed.store(true, Ordering::SeqCst);
    assert_eq!(context.disconnect(SessionId::new(1)), Err(SendErrorKind::BrokenPipe));
    assert_eq!(
        context.send_message_to(SessionId::new(1), ProtocolId::new(1), Bytes::from("x")),
        Err(SendErrorKind::BrokenPipe)
    );
    // An unregistered protocol is still told apart.
    assert_eq!(
        context.send_message_to(SessionId::new(1), ProtocolId::new(2), Bytes::from("x")),
        Err(SendErrorKind::ProtoNotOpen)
    );
    closed.store(false, Ordering::SeqCst);
    drop(tasks);
    assert_eq!(context.close(), Err(SendErrorKind::BrokenPipe));
    assert_eq!(context.control().shutdown(), Err(SendErrorKind::BrokenPipe));
}

#[test]
fn what_the_channel_answers_decides_the_error() {
    assert_eq!(judge(Offer::<u8>::Sent), Ok(()));
    assert_eq!(judge(Offer::Full(1u8)), Err(SendErrorKind::WouldBlock));
    assert_eq!(judge(Offer::Closed(1u8)), Err(SendErrorKind::BrokenPipe));
}

#[test]
fn service_context_keeps_listens_and_key_pair() {
    let (sender, _tasks) = mpsc::unbounded();
    let pair = SecioKeyPair { secret_key: vec![1], public_key: PublicKey { key: vec![2] } };
    let mut context =
        ServiceContext::new(sender, Vec::new(), Some(pair), Arc::new(AtomicBool::new(false)));
    assert!(context.listens().is_empty());
    assert_eq!(context.key_pair().unwrap().public_key.key, vec![2]);
    context.update_listens(vec![Multiaddr::from_parts(vec![Protocol::Tcp(1)])]);
    assert_eq!(context.listens().len(), 1);
    let copy = context.clone_self();
    assert_eq!(copy.listens().len(), 1);
    assert!(matches!(copy.listens()[0].get(0), Some(Protocol::Tcp(1))));
    assert_eq!(copy.key_pair().unwrap().secret_key, vec![1]);
    let control = copy.control().clone();
    assert!(!control.is_registered(ProtocolId::new(1)));
}

#[test]
fn protocol_context_sends_on_its_own_protocol() {
    let (context, mut tasks, _) = service();
    let (session, _, _) = session(11);
    let mut protocol = ProtocolContext::new(context, ProtocolId::new(1));
    assert_eq!(protocol.proto_id, ProtocolId::new(1));
    protocol.update_listens(vec![Multiaddr::empty()]);
    assert_eq!(protocol.service().listens().len(), 1);
    let handle = protocol.as_mut(&session);
    assert_eq!(handle.proto_id(), ProtocolId::new(1));
    assert_eq!(handle.session.id(), SessionId::new(11));
    assert_eq!(handle.send_message(Bytes::from("m")), Ok(()));
    assert_eq!(handle.quick_send_message(Bytes::from("q")), Ok(()));
    assert_eq!(handle.protocol_context().service().shutdown(), Ok(()));
    match tasks.try_recv().unwrap() {
        (Priority::Normal, ServiceTask::ProtocolMessage { target, proto_id, data, .. }) => {
            assert!(matches!(target, TargetSession::Single(id) if id == SessionId::new(11)));
            assert_eq!(proto_id, ProtocolId::new(1));
            assert_eq!(data, Bytes::from("m"));
        }
        _ => panic!("unexpected task"),
    }
    assert!(matches!(
        tasks.try_recv().unwrap(),
        (Priority::High, ServiceTask::ProtocolMessage { .. })
    ));
    assert!(matches!(tasks.try_recv().unwrap(), (Priority::High, ServiceTask::Shutdown(true))));

    let (context, _tasks, _) = service();
    let mut unknown = ProtocolContext::new(context, ProtocolId::new(2));
    let handle = unknown.as_mut(&session);
    assert_eq!(handle.send_message(Bytes::from("m")), Err(SendErrorKind::ProtoNotOpen));
}

#[test]
fn lost_connections_are_told_from_other_failures() {
    assert!(TransportErrorKind::BrokenPipe.is_disconnect());
    assert!(TransportErrorKind::ConnectionAborted.is_disconnect());
    assert!(TransportErrorKind::ConnectionReset.is_disconnect());
    assert!(TransportErrorKind::NotConnected.is_disconnect());
    assert!(TransportErrorKind::UnexpectedEof.is_disconnect());
    assert!(!TransportErrorKind::Other.is_disconnect());
}

#[test]
fn an_address_that_the_transport_cannot_carry_is_refused() {
    let (context, mut tasks, _) = service();
    let no_port = Multiaddr::from_parts(vec![Protocol::Ip4([127, 0, 0, 1])]);
    assert_eq!(context.listen(no_port.clone()), Err(SendErrorKind::TransportNotSupported));
    assert_eq!(
        context.dial(no_port, TargetProtocol::All),
        Err(SendErrorKind::TransportNotSupported)
    );
    let no_host = Multiaddr::from_parts(vec![Protocol::Tcp(80), Protocol::Ws]);
    assert_eq!(
        context.control().dial(no_host, TargetProtocol::Single(ProtocolId::new(1))),
        Err(SendErrorKind::TransportNotSupported)
    );
    assert_eq!(
        context.control().listen(Multiaddr::empty()),
        Err(SendErrorKind::TransportNotSupported)
    );
    assert!(tasks.try_recv().is_err());
    let full = Multiaddr::from_parts(vec![
        Protocol::Dns4("example.org".to_string()),
        Protocol::Tcp(443),
        Protocol::Tls("example.org".to_string()),
        Protocol::Ws,
        Protocol::P2p(vec![1]),
    ]);
    assert_eq!(context.dial(full, TargetProtocol::All), Ok(()));
    assert!(matches!(tasks.try_recv().unwrap(), (Priority::High, ServiceTask::Dial { .. })));
}

#[test]
fn an_id_registered_twice_keeps_its_first_entry() {
    let (sender, _tasks) = mpsc::unbounded();
    let control = ServiceControl::new(
        sender,
        vec![
            (ProtocolId::new(1), info("one")),
            (ProtocolId::new(2), info("two")),
            (ProtocolId::new(1), info("again")),
            (ProtocolId::new(3), info("three")),
        ],
        Arc::new(AtomicBool::new(false)),
    );
    let known = control.proto_infos();
    assert_eq!(known.len(), 3);
    assert_eq!(known[0].1.name, "one");
    assert_eq!(known[1].1.name, "two");
    assert_eq!(known[2].1.name, "three");
    assert!(control.is_registered(ProtocolId::new(1)));
    assert!(control.is_registered(ProtocolId::new(3)));
    assert!(!control.is_registered(ProtocolId::new(4)));
}

#[test]
fn each_command_carries_what_it_was_given_in_its_lane() {
    let sid = SessionId::new(5);
    let pid = ProtocolId::new(6);
    let every = Duration::from_secs(3);
    let addr = Multiaddr::from_parts(vec![Protocol::Ip4([1, 2, 3, 4]), Protocol::Tcp(9)]);
    assert!(matches!(
        ServiceTask::listen(addr.clone()).command(),
        (Priority::High, ServiceTask::Listen { address }) if address.len() == 2
    ));
    assert!(matches!(
        ServiceTask::dial(addr, TargetProtocol::Single(pid)).command(),
        (Priority::High, ServiceTask::Dial { target: TargetProtocol::Single(id), .. }) if id == pid
    ));
    assert!(matches!(
        ServiceTask::disconnect(sid).command(),
        (Priority::High, ServiceTask::Disconnect { session_id }) if session_id == sid
    ));
    assert!(matches!(
        ServiceTask::message(TargetSession::Single(sid), pid, Priority::Normal, Bytes::from("m"))
            .command(),
        (
            Priority::Normal,
            ServiceTask::ProtocolMessage {
                target: TargetSession::Single(s),
                proto_id,
                priority: Priority::Normal,
                data
            }
        ) if s == sid && proto_id == pid && data == Bytes::from("m")
    ));
    assert!(matches!(
        ServiceTask::message(TargetSession::All, pid, Priority::High, Bytes::from("q")).command(),
        (Priority::High, ServiceTask::ProtocolMessage { priority: Priority::High, .. })
    ));
    assert!(matches!(
        ServiceTask::open(sid, TargetProtocol::All).command(),
        (Priority::High, ServiceTask::ProtocolOpen { session_id, target: TargetProtocol::All })
            if session_id == sid
    ));
    assert!(matches!(
        ServiceTask::close(sid, pid).command(),
        (Priority::High, ServiceTask::ProtocolClose { session_id, proto_id })
            if session_id == sid && proto_id == pid
    ));
    assert!(matches!(
        ServiceTask::set_service_notify(pid, every, 1).command(),
        (Priority::Normal, ServiceTask::SetProtocolNotify { proto_id, interval, token: 1 })
            if proto_id == pid && interval == every
    ));
    assert!(matches!(
        ServiceTask::remove_service_notify(pid, 2).command(),
        (Priority::Normal, ServiceTask::RemoveProtocolNotify { proto_id, token: 2 })
            if proto_id == pid
    ));
    assert!(matches!(
        ServiceTask::set_session_notify(sid, pid, every, 3).command(),
        (
            Priority::Normal,
            ServiceTask::SetProtocolSessionNotify { session_id, proto_id, interval, token: 3 }
        ) if session_id == sid && proto_id == pid && interval == every
    ));
    assert!(matches!(
        ServiceTask::remove_session_notify(sid, pid, 4).command(),
        (Priority::Normal, ServiceTask::RemoveProtocolSessionNotify { session_id, token: 4, .. })
            if session_id == sid
    ));
    assert!(matches!(
        ServiceTask::shutdown(true).command(),
        (Priority::High, ServiceTask::Shutdown(true))
    ));
    assert!(matches!(
        ServiceTask::shutdown(false).command(),
        (Priority::High, ServiceTask::Shutdown(false))
    ));
    assert_eq!(ServiceTask::shutdown(false).priority(), Priority::High);
}
