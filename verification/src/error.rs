//! Errors that cross the crate's boundary.

use vstd::prelude::*;

verus! {

/// Why a command could not be queued.
#[derive(Clone, Copy, PartialEq, Eq, Structural, Debug)]
pub enum SendErrorKind {
    /// The receiving actor is gone.
    BrokenPipe,
    /// The receiving actor's queue is full.
    WouldBlock,
    /// The protocol is not registered or not open.
    ProtoNotOpen,
    /// No transport can carry the address.
    TransportNotSupported,
}

/// The kinds of transport failure that the substream tells apart.
#[derive(Clone, Copy, PartialEq, Eq, Structural, Debug)]
pub enum TransportErrorKind {
    BrokenPipe,
    ConnectionAborted,
    ConnectionReset,
    NotConnected,
    UnexpectedEof,
    /// Any other failure.
    Other,
}

impl TransportErrorKind {
    /// Whether this kind only says that the connection is gone. Such a
    /// failure ends the substream without an error event.
    pub open spec fn spec_is_disconnect(self) -> bool {
        self != TransportErrorKind::Other
    }

    #[verifier::when_used_as_spec(spec_is_disconnect)]
    pub fn is_disconnect(self) -> (r: bool)
        ensures
            r == self.spec_is_disconnect(),
    {
        match self {
            TransportErrorKind::BrokenPipe
            | TransportErrorKind::ConnectionAborted
            | TransportErrorKind::ConnectionReset
            | TransportErrorKind::NotConnected
            | TransportErrorKind::UnexpectedEof => true,
            TransportErrorKind::Other => false,
        }
    }
}

/// A failure of the framed stream or of its codec.
pub struct TransportError {
    pub kind: TransportErrorKind,
    pub detail: String,
}

/// A transport failure with its text as a plain sequence.
pub struct TransportErrorView {
    pub kind: TransportErrorKind,
    pub detail: Seq<char>,
}

impl View for TransportError {
    type V = TransportErrorView;

    open spec fn view(&self) -> TransportErrorView {
        TransportErrorView { kind: self.kind, detail: self.detail@ }
    }
}

impl Clone for TransportError {
    fn clone(&self) -> (r: Self)
        ensures
            r@ == self@,
    {
        TransportError { kind: self.kind, detail: self.detail.clone() }
    }
}

} // verus!
