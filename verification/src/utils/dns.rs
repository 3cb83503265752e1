//! Resolving an address that names its host.
//!
//! The lookup itself blocks and belongs to the runtime. What is decided
//! here is which name and port to look up, and what address comes out of
//! the answer.

use crate::multiaddr::{Multiaddr, Protocol, ProtocolView};
use crate::utils::{
    extract_peer_id, has_ws, is_ws, peer_id_of, socketaddr_to_multiaddr, SocketAddress,
};
use vstd::prelude::*;

verus! {

/// Why an address could not be resolved.
pub enum ResolveError {
    /// The lookup succeeded and gave no address.
    InvalidData,
    /// The lookup failed; the text says how.
    Lookup(String),
}

/// A [`ResolveError`] with its text as a plain sequence.
pub enum ResolveErrorView {
    InvalidData,
    Lookup(Seq<char>),
}

impl View for ResolveError {
    type V = ResolveErrorView;

    open spec fn view(&self) -> ResolveErrorView {
        match self {
            ResolveError::InvalidData => ResolveErrorView::InvalidData,
            ResolveError::Lookup(text) => ResolveErrorView::Lookup(text@),
        }
    }
}

/// What a lookup gave.
pub enum Lookup {
    /// Not done yet.
    Pending,
    /// The addresses of the name, in the order in which they were given.
    Resolved(Vec<SocketAddress>),
    /// The lookup failed.
    Failed(String),
}

/// What the runtime is to do next for a resolver.
pub enum DnsStep {
    /// Start looking up `domain` with `port` on a blocking worker, then
    /// report what it gives.
    Spawn { domain: String, port: u16 },
    /// Wait for the lookup.
    Wait,
    /// The resolution is over: the resolved address, or the address as it
    /// was given and the reason.
    Done(Result<Multiaddr, (Multiaddr, ResolveError)>),
}

/// The name and port that an address asks to resolve: those of the first
/// name component that a TCP component follows directly. A name component
/// followed by anything else is passed over together with what follows it.
pub open spec fn dns_target(addr: Seq<ProtocolView>) -> Option<(Seq<char>, u16)>
    decreases addr.len(),
{
    if addr.len() == 0 {
        None
    } else {
        match addr[0] {
            ProtocolView::Dns4(name) | ProtocolView::Dns6(name) => if addr.len() == 1 {
                None
            } else {
                match addr[1] {
                    ProtocolView::Tcp(port) => Some((name, port)),
                    _ => dns_target(addr.skip(2)),
                }
            },
            _ => dns_target(addr.skip(1)),
        }
    }
}

/// The address that stands for `address` once resolved: its IP and port,
/// then WebSocket if `ws`, then the peer id if there is one.
pub open spec fn resolved_addr(address: SocketAddress, ws: bool, peer_id: Option<Seq<u8>>) -> Seq<
    ProtocolView,
> {
    let base = seq![address.ip_part(), ProtocolView::Tcp(address.port)];
    let with_ws = if ws {
        base.push(ProtocolView::Ws)
    } else {
        base
    };
    match peer_id {
        Some(hash) => with_ws.push(ProtocolView::P2p(hash)),
        None => with_ws,
    }
}

/// A resolved address keeps what the source address said beside its host:
/// it is a WebSocket address exactly if the source was one, and it names
/// the peer that the source named. Its host is the resolved IP address and
/// its port the resolved port.
pub proof fn lemma_resolution_keeps_ws_and_peer(
    address: SocketAddress,
    ws: bool,
    peer_id: Option<Seq<u8>>,
)
    ensures
        has_ws(resolved_addr(address, ws, peer_id)) == ws,
        peer_id_of(resolved_addr(address, ws, peer_id)) == peer_id,
        resolved_addr(address, ws, peer_id)[0] == address.ip_part(),
        resolved_addr(address, ws, peer_id)[1] == ProtocolView::Tcp(address.port),
{
    let r = resolved_addr(address, ws, peer_id);
    let base = seq![address.ip_part(), ProtocolView::Tcp(address.port)];
    reveal_with_fuel(peer_id_of, 5);
    assert(base.skip(1).skip(1) =~= Seq::<ProtocolView>::empty());
    assert(peer_id_of(base) is None);
    let with_ws = if ws {
        base.push(ProtocolView::Ws)
    } else {
        base
    };
    crate::utils::lemma_peer_id_of_push(base, ProtocolView::Ws);
    assert(peer_id_of(with_ws) is None);
    if let Some(hash) = peer_id {
        crate::utils::lemma_peer_id_of_push(with_ws, ProtocolView::P2p(hash));
    }
    if ws {
        assert(r[2] == ProtocolView::Ws);
    }
}

/// The state of a [`DNSResolver`], as contracts see it.
pub struct DNSResolverView {
    pub source_address: Seq<ProtocolView>,
    pub peer_id: Option<Seq<u8>>,
    pub ws: bool,
    pub port: u16,
    pub domain: Seq<char>,
    pub started: bool,
}

/// Resolves one address of the form `/dns4/<host>/tcp/<port>` or
/// `/dns6/<host>/tcp/<port>`, with or without `/ws` and `/p2p/<peer-id>`.
pub struct DNSResolver {
    source_address: Multiaddr,
    peer_id: Option<Vec<u8>>,
    ws: bool,
    port: u16,
    domain: String,
    started: bool,
}

impl View for DNSResolver {
    type V = DNSResolverView;

    closed spec fn view(&self) -> DNSResolverView {
        DNSResolverView {
            source_address: self.source_address@,
            peer_id: match self.peer_id {
                Some(hash) => Some(hash@),
                None => None,
            },
            ws: self.ws,
            port: self.port,
            domain: self.domain@,
            started: self.started,
        }
    }
}

impl DNSResolver {
    /// A resolver for `source_address`, if it names a host to resolve.
    pub fn new(source_address: Multiaddr) -> (r: Option<Self>)
        ensures
            match r {
                Some(resolver) => match dns_target(source_address@) {
                    Some((domain, port)) => resolver@ == DNSResolverView {
                        source_address: source_address@,
                        peer_id: peer_id_of(source_address@),
                        ws: has_ws(source_address@),
                        port,
                        domain,
                        started: false,
                    },
                    None => false,
                },
                None => dns_target(source_address@) is None,
            },
    {
        let len = source_address.len();
        let mut i: usize = 0;
        let mut target: Option<(String, u16)> = None;
        assert(source_address@.skip(0) =~= source_address@);
        while i < len
            invariant_except_break
                i <= len,
                target is None,
                dns_target(source_address@) == dns_target(source_address@.skip(i as int)),
            invariant
                len == source_address@.len(),
            ensures
                match target {
                    Some((domain, port)) => dns_target(source_address@) == Some((domain@, port)),
                    None => dns_target(source_address@) is None,
                },
            decreases len - i,
        {
            let ghost rest = source_address@.skip(i as int);
            assert(rest[0] == source_address@[i as int]);
            assert(rest.skip(1) =~= source_address@.skip(i + 1));
            let part = source_address.get(i).unwrap();
            let domain = match part {
                Protocol::Dns4(name) => Some(name),
                Protocol::Dns6(name) => Some(name),
                _ => None,
            };
            match domain {
                None => {
                    i += 1;
                },
                Some(name) => {
                    if i + 1 >= len {
                        return None;
                    }
                    assert(rest[1] == source_address@[i + 1]);
                    assert(rest.skip(2) =~= source_address@.skip(i + 2));
                    let next = source_address.get(i + 1).unwrap();
                    if let Protocol::Tcp(port) = next {
                        target = Some((name.clone(), *port));
                        break ;
                    }
                    i += 2;
                },
            }
        }
        match target {
            Some((domain, port)) => {
                let peer_id = extract_peer_id(&source_address);
                let ws = is_ws(&source_address);
                Some(
                    DNSResolver { peer_id, ws, domain, source_address, port, started: false },
                )
            },
            None => None,
        }
    }

    /// The name to look up.
    pub fn domain(&self) -> (r: &String)
        ensures
            r@ == self@.domain,
    {
        &self.domain
    }

    /// The port to look up the name with.
    pub fn port(&self) -> (r: u16)
        ensures
            r == self@.port,
    {
        self.port
    }

    /// The address that comes out of a lookup that gave `resolved`: the
    /// first address given, with what the source address said beside its
    /// host. A lookup that gave nothing fails with the source address.
    pub fn new_addr(&mut self, resolved: Vec<SocketAddress>) -> (r: Result<
        Multiaddr,
        (Multiaddr, ResolveError),
    >)
        ensures
            resolved@.len() > 0 ==> {
                &&& r is Ok
                &&& r->Ok_0@ == resolved_addr(resolved@[0], old(self)@.ws, old(self)@.peer_id)
                &&& final(self)@ == DNSResolverView { peer_id: None, ..old(self)@ }
            },
            resolved@.len() == 0 ==> {
                &&& r is Err
                &&& (r->Err_0).0@ == old(self)@.source_address
                &&& (r->Err_0).1@ == ResolveErrorView::InvalidData
                &&& final(self)@ == old(self)@
            },
    {
        if resolved.len() > 0 {
            let mut address = socketaddr_to_multiaddr(resolved[0]);
            if self.ws {
                address.push(Protocol::Ws);
            }
            if let Some(peer_id) = self.peer_id.take() {
                address.push(Protocol::P2p(peer_id));
            }
            Ok(address)
        } else {
            Err((self.source_address.clone(), ResolveError::InvalidData))
        }
    }

    /// One step of the resolution.
    ///
    /// The first call asks for the lookup to be started. Every later call
    /// takes what the lookup gave so far: nothing yet, and the resolver
    /// waits; addresses, and the resolution ends as `new_addr` says; a
    /// failure, and it ends with the source address and the reason.
    pub fn poll(&mut self, lookup: Lookup) -> (step: DnsStep)
        ensures
            !old(self)@.started ==> {
                &&& step matches DnsStep::Spawn { domain, port }
                &&& domain@ == old(self)@.domain
                &&& port == old(self)@.port
                &&& final(self)@ == DNSResolverView { started: true, ..old(self)@ }
            },
            old(self)@.started ==> match lookup {
                Lookup::Pending => step is Wait && final(self)@ == old(self)@,
                Lookup::Resolved(resolved) => {
                    &&& step is Done
                    &&& resolved@.len() > 0 ==> {
                        &&& step->Done_0 is Ok
                        &&& step->Done_0->Ok_0@ == resolved_addr(
                            resolved@[0],
                            old(self)@.ws,
                            old(self)@.peer_id,
                        )
                        &&& final(self)@ == DNSResolverView { peer_id: None, ..old(self)@ }
                    }
                    &&& resolved@.len() == 0 ==> {
                        &&& step->Done_0 is Err
                        &&& (step->Done_0->Err_0).0@ == old(self)@.source_address
                        &&& (step->Done_0->Err_0).1@ == ResolveErrorView::InvalidData
                        &&& final(self)@ == old(self)@
                    }
                },
                Lookup::Failed(text) => {
                    &&& step is Done
                    &&& step->Done_0 is Err
                    &&& (step->Done_0->Err_0).0@ == old(self)@.source_address
                    &&& (step->Done_0->Err_0).1@ == ResolveErrorView::Lookup(text@)
                    &&& final(self)@ == old(self)@
                },
            },
    {
        if !self.started {
            self.started = true;
            return DnsStep::Spawn { domain: self.domain.clone(), port: self.port };
        }
        match lookup {
            Lookup::Pending => DnsStep::Wait,
            Lookup::Resolved(resolved) => DnsStep::Done(self.new_addr(resolved)),
            Lookup::Failed(text) => DnsStep::Done(
                Err((self.source_address.clone(), ResolveError::Lookup(text))),
            ),
        }
    }
}

} // verus!
