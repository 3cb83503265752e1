//! Composable network addresses: a sequence of protocol components such as
//! `/ip4/1.2.3.4/tcp/80` or `/dns4/example.org/tcp/80/ws`.

use vstd::prelude::*;
use vstd::utf8::encode_utf8;

verus! {

/// The number `n` as an unsigned varint: seven bits to a byte, least
/// significant first, the high bit set on every byte but the last.
pub open spec fn varint(n: nat) -> Seq<u8>
    decreases n,
{
    if n < 128 {
        seq![n as u8]
    } else {
        seq![(n % 128 + 128) as u8] + varint(n / 128)
    }
}

/// Appends `n` to `buf` as an unsigned varint.
pub fn write_varint(n: usize, buf: &mut Vec<u8>)
    ensures
        final(buf)@ == old(buf)@ + varint(n as nat),
{
    let mut rest: usize = n;
    while rest >= 128
        invariant
            buf@ + varint(rest as nat) == old(buf)@ + varint(n as nat),
        decreases rest,
    {
        let ghost before = buf@;
        let byte: u8 = (rest % 128 + 128) as u8;
        buf.push(byte);
        proof {
            assert(varint(rest as nat) == seq![byte] + varint((rest / 128) as nat));
            assert(before.push(byte) + varint((rest / 128) as nat) =~= before + (seq![byte]
                + varint((rest / 128) as nat)));
        }
        rest = rest / 128;
    }
    let ghost before = buf@;
    buf.push(rest as u8);
    assert(before.push(rest as u8) =~= before + varint(rest as nat));
}

/// Appends `bytes` to `buf`.
pub fn write_bytes(bytes: &[u8], buf: &mut Vec<u8>)
    ensures
        final(buf)@ == old(buf)@ + bytes@,
{
    let mut i: usize = 0;
    while i < bytes.len()
        invariant
            i <= bytes@.len(),
            buf@ == old(buf)@ + bytes@.take(i as int),
        decreases bytes@.len() - i,
    {
        let ghost before = buf@;
        buf.push(bytes[i]);
        assert(before.push(bytes@[i as int]) =~= old(buf)@ + bytes@.take(i + 1));
        i += 1;
    }
    assert(bytes@.take(i as int) =~= bytes@);
}

/// One component of an address.
pub enum Protocol {
    /// A host name to be resolved to an IPv4 address.
    Dns4(String),
    /// A host name to be resolved to an IPv6 address.
    Dns6(String),
    /// An IPv4 address, in network byte order.
    Ip4([u8; 4]),
    /// An IPv6 address, in network byte order.
    Ip6([u8; 16]),
    /// The multihash of a peer's public key.
    P2p(Vec<u8>),
    /// A TCP port.
    Tcp(u16),
    /// TLS, with the server name to present.
    Tls(String),
    /// WebSocket.
    Ws,
    /// WebSocket over TLS.
    Wss,
}

/// What a component says, with its owned data taken as plain sequences.
pub enum ProtocolView {
    Dns4(Seq<char>),
    Dns6(Seq<char>),
    Ip4(Seq<u8>),
    Ip6(Seq<u8>),
    P2p(Seq<u8>),
    Tcp(u16),
    Tls(Seq<char>),
    Ws,
    Wss,
}

impl View for Protocol {
    type V = ProtocolView;

    open spec fn view(&self) -> ProtocolView {
        match self {
            Protocol::Dns4(name) => ProtocolView::Dns4(name@),
            Protocol::Dns6(name) => ProtocolView::Dns6(name@),
            Protocol::Ip4(ip) => ProtocolView::Ip4(ip@),
            Protocol::Ip6(ip) => ProtocolView::Ip6(ip@),
            Protocol::P2p(hash) => ProtocolView::P2p(hash@),
            Protocol::Tcp(port) => ProtocolView::Tcp(*port),
            Protocol::Tls(name) => ProtocolView::Tls(name@),
            Protocol::Ws => ProtocolView::Ws,
            Protocol::Wss => ProtocolView::Wss,
        }
    }
}

/// The numbers by which the wire form names each kind of component.
pub const IP4: usize = 4;

pub const TCP: usize = 6;

pub const IP6: usize = 41;

pub const DNS4: usize = 54;

pub const DNS6: usize = 55;

pub const P2P: usize = 421;

pub const TLS: usize = 448;

pub const WS: usize = 477;

pub const WSS: usize = 478;

/// A length-prefixed run of bytes: the length as a varint, then the bytes.
pub open spec fn prefixed(bytes: Seq<u8>) -> Seq<u8> {
    varint(bytes.len()) + bytes
}

/// The wire form of a component: its kind as a varint, then its data. An
/// address is its bytes in network order, a port its two bytes, high byte
/// first, and a name or a hash is length-prefixed.
pub open spec fn wire(p: ProtocolView) -> Seq<u8> {
    match p {
        ProtocolView::Dns4(name) => varint(DNS4 as nat) + prefixed(encode_utf8(name)),
        ProtocolView::Dns6(name) => varint(DNS6 as nat) + prefixed(encode_utf8(name)),
        ProtocolView::Ip4(ip) => varint(IP4 as nat) + ip,
        ProtocolView::Ip6(ip) => varint(IP6 as nat) + ip,
        ProtocolView::P2p(hash) => varint(P2P as nat) + prefixed(hash),
        ProtocolView::Tcp(port) => varint(TCP as nat) + seq![(port / 256) as u8, (port % 256) as u8],
        ProtocolView::Tls(name) => varint(TLS as nat) + prefixed(encode_utf8(name)),
        ProtocolView::Ws => varint(WS as nat),
        ProtocolView::Wss => varint(WSS as nat),
    }
}

/// Whether a component names a host: an address, or a name that stands for
/// one.
pub open spec fn is_host(p: ProtocolView) -> bool {
    match p {
        ProtocolView::Ip4(ip) => ip.len() == 4,
        ProtocolView::Ip6(ip) => ip.len() == 16,
        ProtocolView::Dns4(_) | ProtocolView::Dns6(_) | ProtocolView::Tls(_) => true,
        _ => false,
    }
}

/// The first component of `addr` that names a host.
pub open spec fn first_host(addr: Seq<ProtocolView>) -> Option<ProtocolView>
    decreases addr.len(),
{
    if addr.len() == 0 {
        None
    } else if is_host(addr[0]) {
        Some(addr[0])
    } else {
        first_host(addr.skip(1))
    }
}

/// The port of the last TCP component of `addr`, or 0 where it has none.
pub open spec fn tcp_port(addr: Seq<ProtocolView>) -> u16
    decreases addr.len(),
{
    if addr.len() == 0 {
        0
    } else {
        match addr.last() {
            ProtocolView::Tcp(port) => port,
            _ => tcp_port(addr.drop_last()),
        }
    }
}

impl Protocol {
    /// Where this component may stand in an address.
    pub fn rank(&self) -> (r: u8)
        ensures
            r == rank(self@),
    {
        match self {
            Protocol::Ip4(_) | Protocol::Ip6(_) | Protocol::Dns4(_) | Protocol::Dns6(_) => 0,
            Protocol::Tcp(_) => 1,
            Protocol::Tls(_) => 2,
            Protocol::Ws | Protocol::Wss => 3,
            Protocol::P2p(_) => 4,
        }
    }

    /// Whether this component names a host.
    pub fn is_host(&self) -> (r: bool)
        ensures
            r == is_host(self@),
    {
        match self {
            Protocol::Ip4(_)
            | Protocol::Ip6(_)
            | Protocol::Dns4(_)
            | Protocol::Dns6(_)
            | Protocol::Tls(_) => true,
            _ => false,
        }
    }

    /// Appends the wire form of this component to `buf`.
    pub fn write_to_bytes(&self, buf: &mut Vec<u8>)
        ensures
            final(buf)@ == old(buf)@ + wire(self@),
    {
        match self {
            Protocol::Dns4(name) => {
                write_varint(DNS4, buf);
                let bytes = name.as_str().as_bytes();
                write_varint(bytes.len(), buf);
                write_bytes(bytes, buf);
                assert(buf@ =~= old(buf)@ + wire(self@));
            },
            Protocol::Dns6(name) => {
                write_varint(DNS6, buf);
                let bytes = name.as_str().as_bytes();
                write_varint(bytes.len(), buf);
                write_bytes(bytes, buf);
                assert(buf@ =~= old(buf)@ + wire(self@));
            },
            Protocol::Ip4(ip) => {
                write_varint(IP4, buf);
                write_bytes(ip.as_slice(), buf);
                assert(buf@ =~= old(buf)@ + wire(self@));
            },
            Protocol::Ip6(ip) => {
                write_varint(IP6, buf);
                write_bytes(ip.as_slice(), buf);
                assert(buf@ =~= old(buf)@ + wire(self@));
            },
            Protocol::P2p(hash) => {
                write_varint(P2P, buf);
                write_varint(hash.len(), buf);
                write_bytes(hash.as_slice(), buf);
                assert(buf@ =~= old(buf)@ + wire(self@));
            },
            Protocol::Tcp(port) => {
                write_varint(TCP, buf);
                let ghost before = buf@;
                buf.push((*port / 256) as u8);
                buf.push((*port % 256) as u8);
                assert(buf@ =~= old(buf)@ + wire(self@));
            },
            Protocol::Tls(name) => {
                write_varint(TLS, buf);
                let bytes = name.as_str().as_bytes();
                write_varint(bytes.len(), buf);
                write_bytes(bytes, buf);
                assert(buf@ =~= old(buf)@ + wire(self@));
            },
            Protocol::Ws => {
                write_varint(WS, buf);
            },
            Protocol::Wss => {
                write_varint(WSS, buf);
            },
        }
    }
}

impl Clone for Protocol {
    fn clone(&self) -> (r: Self)
        ensures
            r@ == self@,
    {
        match self {
            Protocol::Dns4(name) => Protocol::Dns4(name.clone()),
            Protocol::Dns6(name) => Protocol::Dns6(name.clone()),
            Protocol::Ip4(ip) => Protocol::Ip4(*ip),
            Protocol::Ip6(ip) => Protocol::Ip6(*ip),
            Protocol::P2p(hash) => Protocol::P2p(hash.clone()),
            Protocol::Tcp(port) => Protocol::Tcp(*port),
            Protocol::Tls(name) => Protocol::Tls(name.clone()),
            Protocol::Ws => Protocol::Ws,
            Protocol::Wss => Protocol::Wss,
        }
    }
}

/// Where a component may stand in an address that the transport can carry:
/// the host first, then the port, then TLS, then WebSocket, then the peer.
pub open spec fn rank(p: ProtocolView) -> nat {
    match p {
        ProtocolView::Ip4(_)
        | ProtocolView::Ip6(_)
        | ProtocolView::Dns4(_)
        | ProtocolView::Dns6(_) => 0,
        ProtocolView::Tcp(_) => 1,
        ProtocolView::Tls(_) => 2,
        ProtocolView::Ws | ProtocolView::Wss => 3,
        ProtocolView::P2p(_) => 4,
    }
}

/// Whether the transport can carry `addr`: it begins with a host and a TCP
/// port, and what follows is at most TLS, WebSocket and a peer id, in that
/// order and each at most once.
pub open spec fn supported(addr: Seq<ProtocolView>) -> bool {
    &&& addr.len() >= 2
    &&& rank(addr[0]) == 0
    &&& rank(addr[1]) == 1
    &&& forall|i: int| 0 < i < addr.len() ==> rank(addr[i - 1]) < rank(#[trigger] addr[i])
}

/// An address: its components, outermost first.
pub struct Multiaddr {
    parts: Vec<Protocol>,
}

impl View for Multiaddr {
    type V = Seq<ProtocolView>;

    closed spec fn view(&self) -> Seq<ProtocolView> {
        self.parts@.map_values(|p: Protocol| p@)
    }
}

impl Multiaddr {
    /// The address with no component.
    pub fn empty() -> (r: Self)
        ensures
            r@ == Seq::<ProtocolView>::empty(),
    {
        let r = Multiaddr { parts: Vec::new() };
        assert(r@ =~= Seq::<ProtocolView>::empty());
        r
    }

    /// The address made of `parts`, in that order.
    pub fn from_parts(parts: Vec<Protocol>) -> (r: Self)
        ensures
            r@ == parts@.map_values(|p: Protocol| p@),
    {
        Multiaddr { parts }
    }

    /// Appends one component.
    pub fn push(&mut self, part: Protocol)
        ensures
            final(self)@ == old(self)@.push(part@),
    {
        self.parts.push(part);
        assert(self@ =~= old(self)@.push(part@));
    }

    pub fn len(&self) -> (n: usize)
        ensures
            n == self@.len(),
    {
        self.parts.len()
    }

    /// Whether the transport can carry this address.
    pub fn is_supported(&self) -> (r: bool)
        ensures
            r == supported(self@),
    {
        let len = self.parts.len();
        if len < 2 {
            return false;
        }
        if self.parts[0].rank() != 0 || self.parts[1].rank() != 1 {
            return false;
        }
        let mut i: usize = 2;
        while i < len
            invariant
                2 <= i <= len,
                len == self.parts@.len(),
                rank(self@[0]) == 0,
                rank(self@[1]) == 1,
                forall|j: int| 0 < j < i ==> rank(self@[j - 1]) < rank(#[trigger] self@[j]),
            decreases len - i,
        {
            if self.parts[i - 1].rank() >= self.parts[i].rank() {
                assert(rank(self@[i as int - 1]) >= rank(self@[i as int]));
                return false;
            }
            i += 1;
        }
        true
    }

    /// The component at `index`.
    pub fn get(&self, index: usize) -> (r: Option<&Protocol>)
        ensures
            index < self@.len() ==> r is Some && r->0@ == self@[index as int],
            index >= self@.len() ==> r is None,
    {
        if index < self.parts.len() {
            Some(&self.parts[index])
        } else {
            None
        }
    }
}

impl Clone for Multiaddr {
    fn clone(&self) -> (r: Self)
        ensures
            r@ == self@,
    {
        let mut parts: Vec<Protocol> = Vec::new();
        let mut i: usize = 0;
        while i < self.parts.len()
            invariant
                i <= self.parts.len(),
                parts@.len() == i,
                forall|j: int| 0 <= j < i ==> parts@[j]@ == self.parts@[j]@,
            decreases self.parts.len() - i,
        {
            parts.push(self.parts[i].clone());
            i += 1;
        }
        let r = Multiaddr { parts };
        assert(r@ =~= self@);
        r
    }
}

} // verus!
