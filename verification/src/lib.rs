//! Session and substream multiplexing core of a peer-to-peer networking runtime.
//!
//! One connection to a remote peer is a session; every application protocol
//! that is open on a session has a substream of its own. This crate holds the
//! rules by which frames and events move between them: the send buffers and
//! their two priorities, the substream's poll cycle with its back-pressure
//! gates and its teardown, the per-session accounting, the bounded set of known
//! peer addresses, and the address arithmetic around DNS resolution.
//!
//! Sockets, timers and task spawning are not done here. Where a rule needs
//! the network, it is written as a step: the caller performs the request that
//! a step returns and hands the reply to the next step.

use vstd::prelude::*;

pub mod addr;
pub mod buffer;
pub mod channel;
pub mod context;
pub mod error;
pub mod frame;
pub mod multiaddr;
pub mod protocol_handle_stream;
pub mod service;
pub mod session;
pub mod substream;
pub mod utils;

verus! {

/// Index of a substream within its session.
pub type StreamId = usize;

/// Identifies an application protocol.
#[derive(Clone, Copy, PartialEq, Eq, Structural, Debug, Hash, PartialOrd, Ord)]
pub struct ProtocolId(usize);

impl ProtocolId {
    pub closed spec fn new_spec(id: usize) -> Self {
        ProtocolId(id)
    }

    #[verifier::when_used_as_spec(new_spec)]
    pub fn new(id: usize) -> (r: Self)
        ensures
            r == Self::new_spec(id),
            r.value() == id,
    {
        ProtocolId(id)
    }

    #[verifier::when_used_as_spec(spec_value)]
    pub fn value(self) -> (id: usize)
        ensures
            id == self.spec_value(),
    {
        self.0
    }

    pub closed spec fn spec_value(self) -> usize {
        self.0
    }
}

impl From<usize> for ProtocolId {
    fn from(id: usize) -> (r: Self) {
        ProtocolId(id)
    }
}

impl vstd::std_specs::convert::FromSpecImpl<usize> for ProtocolId {
    open spec fn obeys_from_spec() -> bool {
        true
    }

    closed spec fn from_spec(id: usize) -> Self {
        ProtocolId(id)
    }
}

impl Default for ProtocolId {
    fn default() -> (r: Self)
        ensures
            r.value() == 0,
    {
        ProtocolId(0)
    }
}

/// Identifies a session. Assigned once per connection, never reused.
#[derive(Clone, Copy, PartialEq, Eq, Structural, Debug, Hash, PartialOrd, Ord)]
pub struct SessionId(usize);

impl SessionId {
    pub closed spec fn new_spec(id: usize) -> Self {
        SessionId(id)
    }

    #[verifier::when_used_as_spec(new_spec)]
    pub fn new(id: usize) -> (r: Self)
        ensures
            r == Self::new_spec(id),
            r.value() == id,
    {
        SessionId(id)
    }

    #[verifier::when_used_as_spec(spec_value)]
    pub fn value(self) -> (id: usize)
        ensures
            id == self.spec_value(),
    {
        self.0
    }

    pub closed spec fn spec_value(self) -> usize {
        self.0
    }
}

impl From<usize> for SessionId {
    fn from(id: usize) -> (r: Self) {
        SessionId(id)
    }
}

impl vstd::std_specs::convert::FromSpecImpl<usize> for SessionId {
    open spec fn obeys_from_spec() -> bool {
        true
    }

    closed spec fn from_spec(id: usize) -> Self {
        SessionId(id)
    }
}

impl Default for SessionId {
    fn default() -> (r: Self)
        ensures
            r.value() == 0,
    {
        SessionId(0)
    }
}

} // verus!
