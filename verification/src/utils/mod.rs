//! Small helpers on addresses.

use crate::multiaddr::{Multiaddr, Protocol, ProtocolView};
use vstd::prelude::*;

pub mod dns;

verus! {

/// An IP address as its bytes in network order.
#[derive(Clone, Copy, Debug)]
pub enum IpAddress {
    V4([u8; 4]),
    V6([u8; 16]),
}

/// An IP address and a port.
#[derive(Clone, Copy, Debug)]
pub struct SocketAddress {
    pub ip: IpAddress,
    pub port: u16,
}

impl SocketAddress {
    /// The address component that says what `ip` says.
    pub open spec fn ip_part(self) -> ProtocolView {
        match self.ip {
            IpAddress::V4(ip) => ProtocolView::Ip4(ip@),
            IpAddress::V6(ip) => ProtocolView::Ip6(ip@),
        }
    }
}

/// The hash of the first peer-id component of `addr`.
pub open spec fn peer_id_of(addr: Seq<ProtocolView>) -> Option<Seq<u8>>
    decreases addr.len(),
{
    if addr.len() == 0 {
        None
    } else {
        match addr[0] {
            ProtocolView::P2p(hash) => Some(hash),
            _ => peer_id_of(addr.skip(1)),
        }
    }
}

/// Whether `addr` has a WebSocket component.
pub open spec fn has_ws(addr: Seq<ProtocolView>) -> bool {
    exists|i: int| 0 <= i < addr.len() && #[trigger] addr[i] == ProtocolView::Ws
}

/// The peer id of an address with one more component behind.
pub proof fn lemma_peer_id_of_push(addr: Seq<ProtocolView>, part: ProtocolView)
    ensures
        peer_id_of(addr.push(part)) == match peer_id_of(addr) {
            Some(hash) => Some(hash),
            None => match part {
                ProtocolView::P2p(hash) => Some(hash),
                _ => None,
            },
        },
    decreases addr.len(),
{
    let whole = addr.push(part);
    if addr.len() == 0 {
        assert(whole.skip(1) =~= Seq::<ProtocolView>::empty());
        assert(peer_id_of(whole.skip(1)) is None);
    } else {
        assert(whole.skip(1) =~= addr.skip(1).push(part));
        lemma_peer_id_of_push(addr.skip(1), part);
    }
}

/// The hash of the first peer-id component of `addr`, if it has one.
pub fn extract_peer_id(addr: &Multiaddr) -> (r: Option<Vec<u8>>)
    ensures
        match r {
            Some(hash) => peer_id_of(addr@) == Some(hash@),
            None => peer_id_of(addr@) is None,
        },
{
    let len = addr.len();
    let mut i: usize = 0;
    assert(addr@.take(0) =~= Seq::<ProtocolView>::empty());
    while i < len
        invariant
            i <= len,
            len == addr@.len(),
            peer_id_of(addr@.take(i as int)) is None,
        decreases len - i,
    {
        let part = addr.get(i).unwrap();
        proof {
            assert(addr@.take(i + 1) =~= addr@.take(i as int).push(part@));
            lemma_peer_id_of_push(addr@.take(i as int), part@);
        }
        if let Protocol::P2p(hash) = part {
            proof {
                lemma_peer_id_of_prefix(addr@, i + 1);
            }
            return Some(hash.clone());
        }
        i += 1;
    }
    assert(addr@.take(len as int) =~= addr@);
    None
}

/// A peer id found in the beginning of an address is the peer id of the
/// whole.
pub proof fn lemma_peer_id_of_prefix(addr: Seq<ProtocolView>, n: int)
    requires
        0 <= n <= addr.len(),
        peer_id_of(addr.take(n)) is Some,
    ensures
        peer_id_of(addr) == peer_id_of(addr.take(n)),
    decreases addr.len() - n,
{
    if n < addr.len() {
        assert(addr.take(n + 1) =~= addr.take(n).push(addr[n]));
        lemma_peer_id_of_push(addr.take(n), addr[n]);
        lemma_peer_id_of_prefix(addr, n + 1);
    } else {
        assert(addr.take(n) =~= addr);
    }
}

/// Whether `addr` has a WebSocket component.
pub fn is_ws(addr: &Multiaddr) -> (r: bool)
    ensures
        r == has_ws(addr@),
{
    let len = addr.len();
    let mut i: usize = 0;
    while i < len
        invariant
            i <= len,
            len == addr@.len(),
            forall|j: int| 0 <= j < i ==> addr@[j] != ProtocolView::Ws,
        decreases len - i,
    {
        let part = addr.get(i).unwrap();
        if let Protocol::Ws = part {
            return true;
        }
        i += 1;
    }
    false
}

/// The address `/ip4/../tcp/..` or `/ip6/../tcp/..` of a socket address.
pub fn socketaddr_to_multiaddr(address: SocketAddress) -> (r: Multiaddr)
    ensures
        r@ == seq![address.ip_part(), ProtocolView::Tcp(address.port)],
{
    let mut r = Multiaddr::empty();
    match address.ip {
        IpAddress::V4(ip) => r.push(Protocol::Ip4(ip)),
        IpAddress::V6(ip) => r.push(Protocol::Ip6(ip)),
    }
    r.push(Protocol::Tcp(address.port));
    assert(r@ =~= seq![address.ip_part(), ProtocolView::Tcp(address.port)]);
    r
}

} // verus!
