//! The commands that the service sends to a session.

use crate::frame::octets;
use crate::service::{TargetProtocol, TargetProtocolView};
use crate::{ProtocolId, SessionId};
use bytes::Bytes;
use std::time::Duration;
use vstd::prelude::*;

verus! {

/// One command to a session.
#[allow(inconsistent_fields)]
pub enum SessionEvent {
    /// Close the session.
    SessionClose { id: SessionId },
    /// Send `data` on a protocol.
    ProtocolMessage { id: SessionId, proto_id: ProtocolId, data: Bytes },
    /// Open the protocols of `target`.
    ProtocolOpen { id: SessionId, target: TargetProtocol },
    /// Close a protocol.
    ProtocolClose { id: SessionId, proto_id: ProtocolId },
    /// Notify a session-level handler every `interval` with `token`.
    SetNotify { id: SessionId, proto_id: ProtocolId, interval: Duration, token: u64 },
    /// Stop the notification registered under `token`.
    RemoveNotify { id: SessionId, proto_id: ProtocolId, token: u64 },
}

/// A [`SessionEvent`] with its data as plain sequences.
#[allow(inconsistent_fields)]
pub enum SessionEventView {
    SessionClose { id: SessionId },
    ProtocolMessage { id: SessionId, proto_id: ProtocolId, data: Seq<u8> },
    ProtocolOpen { id: SessionId, target: TargetProtocolView },
    ProtocolClose { id: SessionId, proto_id: ProtocolId },
    SetNotify { id: SessionId, proto_id: ProtocolId, interval: Duration, token: u64 },
    RemoveNotify { id: SessionId, proto_id: ProtocolId, token: u64 },
}

impl View for SessionEvent {
    type V = SessionEventView;

    open spec fn view(&self) -> SessionEventView {
        match self {
            SessionEvent::SessionClose { id } => SessionEventView::SessionClose { id: *id },
            SessionEvent::ProtocolMessage {
                id,
                proto_id,
                data,
            } => SessionEventView::ProtocolMessage {
                id: *id,
                proto_id: *proto_id,
                data: octets(*data),
            },
            SessionEvent::ProtocolOpen { id, target } => SessionEventView::ProtocolOpen {
                id: *id,
                target: target@,
            },
            SessionEvent::ProtocolClose { id, proto_id } => SessionEventView::ProtocolClose {
                id: *id,
                proto_id: *proto_id,
            },
            SessionEvent::SetNotify { id, proto_id, interval, token } => SessionEventView::SetNotify {
                id: *id,
                proto_id: *proto_id,
                interval: *interval,
                token: *token,
            },
            SessionEvent::RemoveNotify { id, proto_id, token } => SessionEventView::RemoveNotify {
                id: *id,
                proto_id: *proto_id,
                token: *token,
            },
        }
    }
}

} // verus!
