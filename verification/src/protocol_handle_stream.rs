//! The events that a substream delivers to the user's protocol handlers.

use crate::context::{SessionContext, SessionContextView};
use crate::frame::octets;
use crate::SessionId;
use bytes::Bytes;
use std::sync::Arc;
use vstd::prelude::*;

verus! {

/// Delivered to a handler that serves one protocol for every session.
pub enum ServiceProtocolEvent {
    /// The handler starts.
    Init,
    /// The protocol is open on a session.
    Connected { session: Arc<SessionContext>, version: String },
    /// The protocol is closed on a session. Nothing follows for that session.
    Disconnected { id: SessionId },
    /// One frame arrived.
    Received { id: SessionId, data: Bytes },
    /// A timer registered under `token` fired.
    Notify { token: u64 },
}

/// A [`ServiceProtocolEvent`] with its data as plain sequences.
pub enum ServiceProtocolEventView {
    Init,
    Connected { session: SessionContextView, version: Seq<char> },
    Disconnected { id: SessionId },
    Received { id: SessionId, data: Seq<u8> },
    Notify { token: u64 },
}

impl View for ServiceProtocolEvent {
    type V = ServiceProtocolEventView;

    open spec fn view(&self) -> ServiceProtocolEventView {
        match self {
            ServiceProtocolEvent::Init => ServiceProtocolEventView::Init,
            ServiceProtocolEvent::Connected { session, version } => {
                ServiceProtocolEventView::Connected { session: session@, version: version@ }
            },
            ServiceProtocolEvent::Disconnected { id } => {
                ServiceProtocolEventView::Disconnected { id: *id }
            },
            ServiceProtocolEvent::Received { id, data } => {
                ServiceProtocolEventView::Received { id: *id, data: octets(*data) }
            },
            ServiceProtocolEvent::Notify { token } => {
                ServiceProtocolEventView::Notify { token: *token }
            },
        }
    }
}

/// Delivered to a handler that serves one protocol on one session.
pub enum SessionProtocolEvent {
    /// The protocol is open.
    Opened { version: String },
    /// The protocol is closed.
    Closed,
    /// The session is closed. Nothing follows.
    Disconnected,
    /// One frame arrived.
    Received { data: Bytes },
    /// A timer registered under `token` fired.
    Notify { token: u64 },
}

/// A [`SessionProtocolEvent`] with its data as plain sequences.
pub enum SessionProtocolEventView {
    Opened { version: Seq<char> },
    Closed,
    Disconnected,
    Received { data: Seq<u8> },
    Notify { token: u64 },
}

impl View for SessionProtocolEvent {
    type V = SessionProtocolEventView;

    open spec fn view(&self) -> SessionProtocolEventView {
        match self {
            SessionProtocolEvent::Opened { version } => {
                SessionProtocolEventView::Opened { version: version@ }
            },
            SessionProtocolEvent::Closed => SessionProtocolEventView::Closed,
            SessionProtocolEvent::Disconnected => SessionProtocolEventView::Disconnected,
            SessionProtocolEvent::Received { data } => {
                SessionProtocolEventView::Received { data: octets(*data) }
            },
            SessionProtocolEvent::Notify { token } => {
                SessionProtocolEventView::Notify { token: *token }
            },
        }
    }
}

} // verus!
