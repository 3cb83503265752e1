//! Peer addresses as the discovery protocol keeps them: a connectable
//! address reduced to host and port, and the bounded set of addresses that a
//! peer is known to know.

use crate::frame::{frame_eq, frame_from_vec, frame_to_vec, octets};
use crate::multiaddr::{
    first_host, is_host, tcp_port, wire, Multiaddr, Protocol, ProtocolView, IP4, IP6,
};
use crate::SessionId;
use bytes::Bytes;
use std::time::{Duration, Instant};
use vstd::prelude::*;

verus! {

/// How many addresses a known-set holds unless told otherwise.
pub const DEFAULT_MAX_KNOWN: usize = 5000;

/// What a peer did wrong.
pub enum Misbehavior {
    /// It asked for nodes a second time.
    DuplicateGetNodes,
    /// It answered a request for nodes a second time.
    DuplicateFirstNodes,
    /// Its message held too many items.
    TooManyItems { announce: bool, length: usize },
    /// One item of its message held too many addresses.
    TooManyAddresses(usize),
}

/// What to do with a peer that misbehaved.
#[derive(Clone, Copy, PartialEq, Eq, Structural, Debug)]
pub enum MisbehaveResult {
    /// Keep the session.
    Continue,
    /// Close the session.
    Disconnect,
}

impl MisbehaveResult {
    pub fn is_continue(&self) -> (r: bool)
        ensures
            r == (*self == MisbehaveResult::Continue),
    {
        match self {
            MisbehaveResult::Continue => true,
            _ => false,
        }
    }

    pub fn is_disconnect(&self) -> (r: bool)
        ensures
            r == (*self == MisbehaveResult::Disconnect),
    {
        match self {
            MisbehaveResult::Disconnect => true,
            _ => false,
        }
    }
}

/// Where the discovery protocol keeps what it learns. Implemented by the
/// user; nothing is assumed of an implementation.
pub trait AddressManager {
    fn add_new_addr(&mut self, session_id: SessionId, addr: Multiaddr);

    fn add_new_addrs(&mut self, session_id: SessionId, addrs: Vec<Multiaddr>);

    fn misbehave(&mut self, session_id: SessionId, kind: Misbehavior) -> MisbehaveResult;

    fn get_random(&mut self, n: usize) -> Vec<Multiaddr>;
}

/// Whether an IPv4 address, given as its four bytes, can be reached from
/// anywhere: it is not private, loopback, link-local, broadcast, reserved
/// for documentation, or unspecified.
pub open spec fn ip4_reachable(ip: Seq<u8>) -> bool {
    let private = ip[0] == 10 || (ip[0] == 172 && 16 <= ip[1] <= 31) || (ip[0] == 192 && ip[1]
        == 168);
    let loopback = ip[0] == 127;
    let link_local = ip[0] == 169 && ip[1] == 254;
    let broadcast = ip[0] == 255 && ip[1] == 255 && ip[2] == 255 && ip[3] == 255;
    let documentation = (ip[0] == 192 && ip[1] == 0 && ip[2] == 2) || (ip[0] == 198 && ip[1]
        == 51 && ip[2] == 100) || (ip[0] == 203 && ip[1] == 0 && ip[2] == 113);
    let unspecified = ip[0] == 0 && ip[1] == 0 && ip[2] == 0 && ip[3] == 0;
    !private && !loopback && !link_local && !broadcast && !documentation && !unspecified
}

/// Whether bytes `from` up to `to` of `ip` are all zero.
pub open spec fn zero_between(ip: Seq<u8>, from: int, to: int) -> bool {
    forall|i: int| from <= i < to ==> ip[i] == 0
}

/// Whether an IPv6 address, given as its sixteen bytes, can be reached from
/// anywhere. A multicast address can if its scope is global. Any other can
/// unless it is loopback, unspecified, link-local, site-local, unique-local,
/// or reserved for documentation.
pub open spec fn ip6_reachable(ip: Seq<u8>) -> bool {
    if ip[0] == 255 {
        ip[1] % 16 == 14
    } else {
        let loopback = zero_between(ip, 0, 15) && ip[15] == 1;
        let unspecified = zero_between(ip, 0, 16);
        let link_local = ip[0] == 254 && 128 <= ip[1] <= 191;
        let site_local = ip[0] == 254 && 192 <= ip[1];
        let unique_local = ip[0] == 252 || ip[0] == 253;
        let documentation = ip[0] == 32 && ip[1] == 1 && ip[2] == 13 && ip[3] == 184;
        !loopback && !unspecified && !link_local && !site_local && !unique_local
            && !documentation
    }
}

/// Whether a host in wire form is taken to be reachable: an IP address by
/// the rules above, anything else always.
pub open spec fn reachable(host: Seq<u8>) -> bool {
    if host.len() == 5 && host[0] == IP4 {
        ip4_reachable(host.skip(1))
    } else if host.len() == 17 && host[0] == IP6 {
        ip6_reachable(host.skip(1))
    } else {
        true
    }
}

fn check_ip4(ip: &Vec<u8>) -> (r: bool)
    requires
        ip@.len() == 5,
    ensures
        r == ip4_reachable(ip@.skip(1)),
{
    let a: u8 = ip[1];
    let b: u8 = ip[2];
    let c: u8 = ip[3];
    let d: u8 = ip[4];
    let private = a == 10 || (a == 172 && 16 <= b && b <= 31) || (a == 192 && b == 168);
    let loopback = a == 127;
    let link_local = a == 169 && b == 254;
    let broadcast = a == 255 && b == 255 && c == 255 && d == 255;
    let documentation = (a == 192 && b == 0 && c == 2) || (a == 198 && b == 51 && c == 100) || (a
        == 203 && b == 0 && c == 113);
    let unspecified = a == 0 && b == 0 && c == 0 && d == 0;
    !private && !loopback && !link_local && !broadcast && !documentation && !unspecified
}

/// Whether bytes `from` up to `to` of the address in `host` are all zero.
fn check_zero(host: &Vec<u8>, from: usize, to: usize) -> (r: bool)
    requires
        from <= to,
        to + 1 <= host@.len(),
    ensures
        r == zero_between(host@.skip(1), from as int, to as int),
{
    let mut i: usize = from;
    while i < to
        invariant
            from <= i <= to,
            to + 1 <= host@.len(),
            forall|j: int| from <= j < i ==> host@.skip(1)[j] == 0,
        decreases to - i,
    {
        if host[i + 1] != 0 {
            assert(host@.skip(1)[i as int] != 0);
            return false;
        }
        i += 1;
    }
    true
}

fn check_ip6(host: &Vec<u8>) -> (r: bool)
    requires
        host@.len() == 17,
    ensures
        r == ip6_reachable(host@.skip(1)),
{
    let a: u8 = host[1];
    let b: u8 = host[2];
    if a == 255 {
        b % 16 == 14
    } else {
        let head = check_zero(host, 0, 15);
        let last: u8 = host[16];
        let loopback = head && last == 1;
        let unspecified = head && last == 0;
        assert(unspecified == zero_between(host@.skip(1), 0, 16)) by {
            if unspecified {
                assert forall|i: int| 0 <= i < 16 implies host@.skip(1)[i] == 0 by {
                    if i < 15 {
                    }
                }
            } else if zero_between(host@.skip(1), 0, 16) {
                assert(host@.skip(1)[15] == 0);
                assert(zero_between(host@.skip(1), 0, 15));
            }
        }
        let link_local = a == 254 && 128 <= b && b <= 191;
        let site_local = a == 254 && 192 <= b;
        let unique_local = a == 252 || a == 253;
        let documentation = a == 32 && b == 1 && host[3] == 13 && host[4] == 184;
        !loopback && !unspecified && !link_local && !site_local && !unique_local
            && !documentation
    }
}

/// A peer address reduced to what it takes to connect: the host, in wire
/// form, and the TCP port. Two addresses are the same if both are, and
/// they hash and order by host, then port.
#[derive(Debug, Hash, PartialOrd, Ord)]
pub struct ConnectableAddr {
    host: Bytes,
    port: u16,
}

/// A [`ConnectableAddr`] with its host as a plain sequence.
pub struct ConnectableAddrView {
    pub host: Seq<u8>,
    pub port: u16,
}

impl View for ConnectableAddr {
    type V = ConnectableAddrView;

    closed spec fn view(&self) -> ConnectableAddrView {
        ConnectableAddrView { host: octets(self.host), port: self.port }
    }
}

impl Clone for ConnectableAddr {
    fn clone(&self) -> (r: Self)
        ensures
            r@ == self@,
    {
        ConnectableAddr { host: self.host.clone(), port: self.port }
    }
}

impl PartialEq for ConnectableAddr {
    fn eq(&self, other: &Self) -> (r: bool) {
        frame_eq(&self.host, &other.host) && self.port == other.port
    }
}

impl vstd::std_specs::cmp::PartialEqSpecImpl for ConnectableAddr {
    open spec fn obeys_eq_spec() -> bool {
        true
    }

    open spec fn eq_spec(&self, other: &Self) -> bool {
        self@ == other@
    }
}

impl Eq for ConnectableAddr {

}

/// The first host of an address with one more component behind.
pub proof fn lemma_first_host_push(addr: Seq<ProtocolView>, part: ProtocolView)
    ensures
        first_host(addr.push(part)) == match first_host(addr) {
            Some(host) => Some(host),
            None => if is_host(part) {
                Some(part)
            } else {
                None
            },
        },
    decreases addr.len(),
{
    let whole = addr.push(part);
    if addr.len() == 0 {
        assert(whole.skip(1) =~= Seq::<ProtocolView>::empty());
        assert(first_host(whole.skip(1)) is None);
    } else {
        assert(whole.skip(1) =~= addr.skip(1).push(part));
        lemma_first_host_push(addr.skip(1), part);
    }
}

impl ConnectableAddr {
    /// The connectable address of `addr`: its first component that names a
    /// host, in wire form, and the port of its last TCP component, or 0.
    pub fn from(addr: &Multiaddr) -> (r: ConnectableAddr)
        requires
            first_host(addr@) is Some,
        ensures
            r@ == (ConnectableAddrView {
                host: wire(first_host(addr@)->0),
                port: tcp_port(addr@),
            }),
    {
        let mut host: Option<Vec<u8>> = None;
        let mut port: u16 = 0;
        let len = addr.len();
        let mut i: usize = 0;
        assert(addr@.take(0) =~= Seq::<ProtocolView>::empty());
        while i < len
            invariant
                i <= len,
                len == addr@.len(),
                port == tcp_port(addr@.take(i as int)),
                match first_host(addr@.take(i as int)) {
                    Some(found) => host is Some && host->0@ == wire(found),
                    None => host is None,
                },
            decreases len - i,
        {
            let part = addr.get(i).unwrap();
            proof {
                assert(addr@.take(i + 1) =~= addr@.take(i as int).push(part@));
                assert(addr@.take(i + 1).drop_last() =~= addr@.take(i as int));
                lemma_first_host_push(addr@.take(i as int), part@);
            }
            if part.is_host() {
                if host.is_none() {
                    let mut buf: Vec<u8> = Vec::new();
                    part.write_to_bytes(&mut buf);
                    assert(buf@ =~= wire(part@));
                    host = Some(buf);
                }
            } else if let Protocol::Tcp(p) = part {
                port = *p;
            }
            i += 1;
        }
        assert(addr@.take(len as int) =~= addr@);
        ConnectableAddr { host: frame_from_vec(host.unwrap()), port }
    }

    /// Whether `addr` has a component that names a host, so that it has a
    /// connectable address.
    pub fn is_connectable(addr: &Multiaddr) -> (r: bool)
        ensures
            r == first_host(addr@) is Some,
    {
        let len = addr.len();
        let mut i: usize = 0;
        assert(addr@.take(0) =~= Seq::<ProtocolView>::empty());
        while i < len
            invariant
                i <= len,
                len == addr@.len(),
                first_host(addr@.take(i as int)) is None,
            decreases len - i,
        {
            let part = addr.get(i).unwrap();
            proof {
                assert(addr@.take(i + 1) =~= addr@.take(i as int).push(part@));
                lemma_first_host_push(addr@.take(i as int), part@);
            }
            if part.is_host() {
                proof {
                    Self::lemma_first_host_prefix(addr@, i + 1);
                }
                return true;
            }
            i += 1;
        }
        assert(addr@.take(len as int) =~= addr@);
        false
    }

    /// A host found in the beginning of an address is the host of the whole.
    pub proof fn lemma_first_host_prefix(addr: Seq<ProtocolView>, n: int)
        requires
            0 <= n <= addr.len(),
            first_host(addr.take(n)) is Some,
        ensures
            first_host(addr) == first_host(addr.take(n)),
        decreases addr.len() - n,
    {
        if n < addr.len() {
            assert(addr.take(n + 1) =~= addr.take(n).push(addr[n]));
            lemma_first_host_push(addr.take(n), addr[n]);
            Self::lemma_first_host_prefix(addr, n + 1);
        } else {
            assert(addr.take(n) =~= addr);
        }
    }

    /// The connectable address of the socket address `ip:port`, for an IPv4
    /// address given as its four bytes.
    pub fn from_ip4(ip: [u8; 4], port: u16) -> (r: ConnectableAddr)
        ensures
            r@ == (ConnectableAddrView { host: wire(ProtocolView::Ip4(ip@)), port }),
    {
        let mut buf: Vec<u8> = Vec::new();
        Protocol::Ip4(ip).write_to_bytes(&mut buf);
        assert(buf@ =~= wire(ProtocolView::Ip4(ip@)));
        ConnectableAddr { host: frame_from_vec(buf), port }
    }

    /// The connectable address of the socket address `[ip]:port`, for an
    /// IPv6 address given as its sixteen bytes.
    pub fn from_ip6(ip: [u8; 16], port: u16) -> (r: ConnectableAddr)
        ensures
            r@ == (ConnectableAddrView { host: wire(ProtocolView::Ip6(ip@)), port }),
    {
        let mut buf: Vec<u8> = Vec::new();
        Protocol::Ip6(ip).write_to_bytes(&mut buf);
        assert(buf@ =~= wire(ProtocolView::Ip6(ip@)));
        ConnectableAddr { host: frame_from_vec(buf), port }
    }

    pub fn port(&self) -> (port: u16)
        ensures
            port == self@.port,
    {
        self.port
    }

    /// The host in wire form.
    pub fn host(&self) -> (host: Vec<u8>)
        ensures
            host@ == self@.host,
    {
        frame_to_vec(&self.host)
    }

    /// Whether the host is taken to be reachable from anywhere. Only IP
    /// addresses are judged; a name is assumed to be reachable.
    pub fn is_reachable(&self) -> (r: bool)
        ensures
            r == reachable(self@.host),
    {
        let host = frame_to_vec(&self.host);
        if host.len() == 5 && host[0] == 4 {
            check_ip4(&host)
        } else if host.len() == 17 && host[0] == 41 {
            check_ip6(&host)
        } else {
            true
        }
    }
}

/// The reachability of a host in wire form is that of the host itself: an
/// IP address is judged by its bytes, and a name is reachable.
pub proof fn lemma_reachable_host(p: ProtocolView)
    requires
        is_host(p),
    ensures
        reachable(wire(p)) == match p {
            ProtocolView::Ip4(ip) => ip4_reachable(ip),
            ProtocolView::Ip6(ip) => ip6_reachable(ip),
            _ => true,
        },
{
    reveal_with_fuel(crate::multiaddr::varint, 3);
    match p {
        ProtocolView::Ip4(ip) => {
            assert(wire(p).skip(1) =~= ip);
        },
        ProtocolView::Ip6(ip) => {
            assert(wire(p).skip(1) =~= ip);
        },
        _ => {},
    }
}

/// `std::time::Instant::now`: the current reading of the monotonic clock.
#[verifier::external_body]
fn instant_now() -> Instant {
    Instant::now()
}

/// `std::time::Instant::elapsed`: the time that has passed since `origin`.
#[verifier::external_body]
fn instant_elapsed(origin: &Instant) -> Duration {
    origin.elapsed()
}

/// `std::time::Duration::as_nanos`: the whole duration in nanoseconds.
#[verifier::external_body]
fn duration_as_nanos(duration: &Duration) -> u128 {
    duration.as_nanos()
}

/// `std::time::Instant`: a reading of the monotonic clock.
#[verifier::external_type_specification]
#[verifier::external_body]
pub struct ExInstant(Instant);

/// One known address with the time at which it was last inserted.
pub type Entry = (u64, ConnectableAddrView);

/// The time under which an insert at clock reading `now` is recorded, where
/// `clock` is the time of the insert before it: `now` itself if the clock
/// has moved on, else the next instant, so that no two inserts share a time.
pub open spec fn stamp(clock: u64, now: u64) -> int {
    if now > clock {
        now as int
    } else {
        clock + 1
    }
}

/// Whether an entry is of another address than `key`.
pub open spec fn is_other(key: ConnectableAddrView) -> spec_fn(Entry) -> bool {
    |e: Entry| e.1 != key
}

/// `entries` without the entry of `key`.
pub open spec fn forgotten(entries: Seq<Entry>, key: ConnectableAddrView) -> Seq<Entry> {
    entries.filter(is_other(key))
}

/// `entries` without the entries of all `keys`, taken one after the other.
pub open spec fn forgotten_all(entries: Seq<Entry>, keys: Seq<ConnectableAddrView>) -> Seq<Entry>
    decreases keys.len(),
{
    if keys.len() == 0 {
        entries
    } else {
        forgotten_all(forgotten(entries, keys[0]), keys.skip(1))
    }
}

/// `entries` after `key` has been inserted at `time` into a set that holds at
/// most `max_known`: the key's earlier entry is gone, the new one is the
/// youngest, and if that is one entry too many, the oldest is gone too.
pub open spec fn inserted(
    entries: Seq<Entry>,
    key: ConnectableAddrView,
    time: u64,
    max_known: usize,
) -> Seq<Entry> {
    let added = forgotten(entries, key).push((time, key));
    if added.len() > max_known {
        added.skip(1)
    } else {
        added
    }
}

/// Whether `key` has an entry.
pub open spec fn holds(entries: Seq<Entry>, key: ConnectableAddrView) -> bool {
    exists|i: int| 0 <= i < entries.len() && (#[trigger] entries[i]).1 == key
}

/// Oldest first, no two entries at the same time, no address twice.
pub open spec fn ordered(entries: Seq<Entry>) -> bool {
    &&& forall|i: int, j: int|
        0 <= i < j < entries.len() ==> (#[trigger] entries[i]).0 < (#[trigger] entries[j]).0
    &&& forall|i: int, j: int|
        0 <= i < j < entries.len() ==> (#[trigger] entries[i]).1 != (#[trigger] entries[j]).1
}

/// A filter that every item passes keeps the sequence as it is.
pub proof fn lemma_filter_keeps_all<A>(s: Seq<A>, pred: spec_fn(A) -> bool)
    requires
        forall|i: int| 0 <= i < s.len() ==> pred(#[trigger] s[i]),
    ensures
        s.filter(pred) == s,
    decreases s.len(),
{
    reveal(Seq::filter);
    if s.len() > 0 {
        lemma_filter_keeps_all(s.drop_last(), pred);
        assert(s.drop_last().push(s.last()) =~= s);
    }
}

/// A filter that every item but one passes takes out that one.
pub proof fn lemma_filter_drops_one<A>(s: Seq<A>, pred: spec_fn(A) -> bool, at: int)
    requires
        0 <= at < s.len(),
        !pred(s[at]),
        forall|i: int| 0 <= i < s.len() && i != at ==> pred(#[trigger] s[i]),
    ensures
        s.filter(pred) == s.remove(at),
    decreases s.len(),
{
    reveal(Seq::filter);
    if at == s.len() - 1 {
        lemma_filter_keeps_all(s.drop_last(), pred);
        assert(s.drop_last() =~= s.remove(at));
    } else {
        lemma_filter_drops_one(s.drop_last(), pred, at);
        assert(s.drop_last().remove(at).push(s.last()) =~= s.remove(at));
    }
}

/// An insert keeps the set in order and within its bound, and if the bound
/// is not zero the inserted address is known afterwards, as the youngest.
pub proof fn lemma_inserted(
    entries: Seq<Entry>,
    key: ConnectableAddrView,
    time: u64,
    max_known: usize,
)
    requires
        ordered(entries),
        entries.len() <= max_known,
        forall|i: int| 0 <= i < entries.len() ==> (#[trigger] entries[i]).0 < time,
    ensures
        ordered(inserted(entries, key, time, max_known)),
        inserted(entries, key, time, max_known).len() <= max_known,
        max_known > 0 ==> inserted(entries, key, time, max_known).last() == (time, key),
        max_known > 0 ==> holds(inserted(entries, key, time, max_known), key),
{
    let base = forgotten(entries, key);
    let added = base.push((time, key));
    let result = inserted(entries, key, time, max_known);
    lemma_forgotten(entries, key);
    assert forall|i: int, j: int| 0 <= i < j < added.len() implies (#[trigger] added[i]).0 < (
    #[trigger] added[j]).0 && added[i].1 != added[j].1 by {
        if j < base.len() {
            assert(added[i] == base[i]);
            assert(added[j] == base[j]);
        } else {
            assert(added[i] == base[i]);
            if base[i].1 == key {
                assert(holds(base, key));
            }
            assert(entries.contains(base[i]));
            let k = choose|k: int| 0 <= k < entries.len() && entries[k] == base[i];
            assert(entries[k].0 < time);
        }
    }
    if added.len() > max_known {
        assert forall|i: int, j: int| 0 <= i < j < result.len() implies (#[trigger] result[i]).0
            < (#[trigger] result[j]).0 && result[i].1 != result[j].1 by {
            assert(result[i] == added[i + 1]);
            assert(result[j] == added[j + 1]);
        }
    }
    if max_known > 0 {
        assert(result.last() == (time, key));
        assert(result[result.len() - 1].1 == key);
    }
}

/// Forgetting an address keeps the order, takes nothing else away, and
/// leaves the address unknown.
pub proof fn lemma_forgotten(entries: Seq<Entry>, key: ConnectableAddrView)
    requires
        ordered(entries),
    ensures
        ordered(forgotten(entries, key)),
        forgotten(entries, key).len() <= entries.len(),
        !holds(forgotten(entries, key), key),
        forall|i: int|
            0 <= i < forgotten(entries, key).len() ==> entries.contains(
                #[trigger] forgotten(entries, key)[i],
            ),
        forall|k: int|
            0 <= k < entries.len() && (#[trigger] entries[k]).1 != key ==> holds(
                forgotten(entries, key),
                entries[k].1,
            ),
{
    let pred = is_other(key);
    let rest = forgotten(entries, key);
    if holds(entries, key) {
        let at = choose|i: int| 0 <= i < entries.len() && (#[trigger] entries[i]).1 == key;
        assert forall|i: int| 0 <= i < entries.len() && i != at implies pred(
            #[trigger] entries[i],
        ) by {
            if i < at {
                assert(entries[i].1 != entries[at].1);
            } else {
                assert(entries[at].1 != entries[i].1);
            }
        }
        lemma_filter_drops_one(entries, pred, at);
        assert forall|i: int| 0 <= i < rest.len() implies entries.contains(#[trigger] rest[i]) by {
            let k = if i < at {
                i
            } else {
                i + 1
            };
            assert(entries[k] == rest[i]);
        }
        assert forall|i: int, j: int| 0 <= i < j < rest.len() implies (#[trigger] rest[i]).0 < (
        #[trigger] rest[j]).0 && rest[i].1 != rest[j].1 by {
            let ki = if i < at {
                i
            } else {
                i + 1
            };
            let kj = if j < at {
                j
            } else {
                j + 1
            };
            assert(rest[i] == entries[ki]);
            assert(rest[j] == entries[kj]);
        }
        if holds(rest, key) {
            let i = choose|i: int| 0 <= i < rest.len() && (#[trigger] rest[i]).1 == key;
            let k = if i < at {
                i
            } else {
                i + 1
            };
            assert(rest[i] == entries[k]);
        }
        assert forall|k: int| 0 <= k < entries.len() && (#[trigger] entries[k]).1 != key implies holds(
            rest,
            entries[k].1,
        ) by {
            let i = if k < at {
                k
            } else {
                k - 1
            };
            assert(rest[i] == entries[k]);
        }
    } else {
        assert forall|i: int| 0 <= i < entries.len() implies pred(#[trigger] entries[i]) by {
            if !pred(entries[i]) {
                assert(holds(entries, key));
            }
        }
        lemma_filter_keeps_all(entries, pred);
        assert forall|i: int| 0 <= i < rest.len() implies entries.contains(#[trigger] rest[i]) by {
            assert(entries[i] == rest[i]);
        }
        assert forall|k: int| 0 <= k < entries.len() && (#[trigger] entries[k]).1 != key implies holds(
            rest,
            entries[k].1,
        ) by {
            assert(rest[k] == entries[k]);
        }
    }
}

/// A full set that learns a new address forgets its oldest, and only that.
pub proof fn lemma_inserted_evicts_oldest(
    entries: Seq<Entry>,
    key: ConnectableAddrView,
    time: u64,
    max_known: usize,
)
    requires
        ordered(entries),
        entries.len() == max_known,
        max_known > 0,
        !holds(entries, key),
    ensures
        inserted(entries, key, time, max_known) == entries.skip(1).push((time, key)),
{
    let pred = is_other(key);
    assert forall|i: int| 0 <= i < entries.len() implies pred(#[trigger] entries[i]) by {
        if !pred(entries[i]) {
            assert(holds(entries, key));
        }
    }
    lemma_filter_keeps_all(entries, pred);
    assert(entries.push((time, key)).skip(1) =~= entries.skip(1).push((time, key)));
}

/// The addresses that a peer is known to know: a bounded set that forgets
/// its oldest member when it is full.
///
/// It keeps three indexes side by side: the addresses, the time of each
/// address, and the address of each time. They always speak of the same
/// addresses, in the same order, oldest first.
pub struct AddrKnown {
    max_known: usize,
    addrs: Vec<ConnectableAddr>,
    addr_times: Vec<(ConnectableAddr, u64)>,
    time_addrs: Vec<(u64, ConnectableAddr)>,
    clock: u64,
    origin: Instant,
}

impl AddrKnown {
    /// The most addresses that the set holds.
    pub closed spec fn max_known(&self) -> usize {
        self.max_known
    }

    /// The time of the last insert, or 0 before the first.
    pub closed spec fn clock(&self) -> u64 {
        self.clock
    }

    /// The index of addresses.
    pub closed spec fn addrs(&self) -> Seq<ConnectableAddrView> {
        self.addrs@.map_values(|a: ConnectableAddr| a@)
    }

    /// The index from address to time.
    pub closed spec fn addr_times(&self) -> Seq<(ConnectableAddrView, u64)> {
        self.addr_times@.map_values(|e: (ConnectableAddr, u64)| (e.0@, e.1))
    }

    /// The index from time to address.
    pub closed spec fn time_addrs(&self) -> Seq<Entry> {
        self.time_addrs@.map_values(|e: (u64, ConnectableAddr)| (e.0, e.1@))
    }

    /// What the set holds, oldest first.
    pub open spec fn entries(&self) -> Seq<Entry> {
        self.time_addrs()
    }

    /// The three indexes agree entry by entry, the entries are in order, no
    /// time is later than the clock, and the set is within its bound.
    pub open spec fn wf(&self) -> bool {
        &&& self.addrs().len() == self.time_addrs().len()
        &&& self.addr_times().len() == self.time_addrs().len()
        &&& self.time_addrs().len() <= self.max_known()
        &&& forall|i: int|
            0 <= i < self.time_addrs().len() ==> {
                &&& self.addrs()[i] == (#[trigger] self.time_addrs()[i]).1
                &&& self.addr_times()[i] == (self.time_addrs()[i].1, self.time_addrs()[i].0)
            }
        &&& ordered(self.time_addrs())
        &&& forall|i: int|
            0 <= i < self.time_addrs().len() ==> (#[trigger] self.time_addrs()[i]).0
                <= self.clock()
    }

    /// The three indexes hold the same addresses, and as many; each address
    /// has the time under which its time has it; and there are no more of
    /// them than the bound allows.
    pub proof fn lemma_indexes_agree(&self)
        requires
            self.wf(),
        ensures
            self.addrs() == self.time_addrs().map_values(|e: Entry| e.1),
            self.addr_times() == self.time_addrs().map_values(|e: Entry| (e.1, e.0)),
            self.addrs().len() == self.addr_times().len() == self.time_addrs().len(),
            self.addrs().len() <= self.max_known(),
            self.addrs().no_duplicates(),
    {
        assert(self.addrs() =~= self.time_addrs().map_values(|e: Entry| e.1));
        assert(self.addr_times() =~= self.time_addrs().map_values(|e: Entry| (e.1, e.0)));
        assert forall|i: int, j: int|
            0 <= i < self.addrs().len() && 0 <= j < self.addrs().len() && i != j implies self.addrs()[i]
            != self.addrs()[j] by {
            if i < j {
                assert(self.time_addrs()[i].1 != self.time_addrs()[j].1);
            } else {
                assert(self.time_addrs()[j].1 != self.time_addrs()[i].1);
            }
        }
    }

    /// An empty set that holds at most `max_known` addresses.
    pub fn new(max_known: usize) -> (r: AddrKnown)
        ensures
            r.wf(),
            r.max_known() == max_known,
            r.clock() == 0,
            r.entries() == Seq::<Entry>::empty(),
    {
        let r = AddrKnown {
            max_known,
            addrs: Vec::new(),
            addr_times: Vec::new(),
            time_addrs: Vec::new(),
            clock: 0,
            origin: instant_now(),
        };
        assert(r.time_addrs() =~= Seq::<Entry>::empty());
        r
    }

    /// Where `addr` stands in the indexes, if it is known.
    fn position(&self, addr: &ConnectableAddr) -> (r: Option<usize>)
        requires
            self.wf(),
        ensures
            match r {
                Some(at) => at < self.entries().len() && self.entries()[at as int].1 == addr@,
                None => !holds(self.entries(), addr@),
            },
    {
        let mut i: usize = 0;
        while i < self.addrs.len()
            invariant
                self.wf(),
                i <= self.addrs@.len(),
                forall|j: int| 0 <= j < i ==> (#[trigger] self.entries()[j]).1 != addr@,
            decreases self.addrs@.len() - i,
        {
            assert(self.addrs()[i as int] == self.entries()[i as int].1);
            if self.addrs[i] == *addr {
                return Some(i);
            }
            i += 1;
        }
        None
    }

    /// Whether `addr` is known.
    pub fn contains(&self, addr: &ConnectableAddr) -> (r: bool)
        requires
            self.wf(),
        ensures
            r == holds(self.entries(), addr@),
    {
        self.position(addr).is_some()
    }

    /// The time of the last insert, or 0 before the first. No address can
    /// be inserted once this is the largest time there is.
    pub fn last_insert(&self) -> (time: u64)
        ensures
            time == self.clock(),
    {
        self.clock
    }

    /// How many addresses are known.
    pub fn len(&self) -> (n: usize)
        requires
            self.wf(),
        ensures
            n == self.entries().len(),
    {
        self.addrs.len()
    }

    /// Takes the entry at `at` out of all three indexes.
    fn forget_at(&mut self, at: usize)
        requires
            old(self).wf(),
            at < old(self).entries().len(),
        ensures
            final(self).wf(),
            final(self).max_known() == old(self).max_known(),
            final(self).clock() == old(self).clock(),
            final(self).entries() == old(self).entries().remove(at as int),
    {
        self.addrs.remove(at);
        self.addr_times.remove(at);
        self.time_addrs.remove(at);
        proof {
            assert(self.addrs() =~= old(self).addrs().remove(at as int));
            assert(self.addr_times() =~= old(self).addr_times().remove(at as int));
            assert(self.time_addrs() =~= old(self).time_addrs().remove(at as int));
            let before = old(self).time_addrs();
            let after = self.time_addrs();
            assert forall|i: int| 0 <= i < after.len() implies {
                &&& self.addrs()[i] == (#[trigger] after[i]).1
                &&& self.addr_times()[i] == (after[i].1, after[i].0)
                &&& after[i].0 <= self.clock()
            } by {
                let k = if i < at { i } else { i + 1 };
                assert(after[i] == before[k]);
            }
            assert forall|i: int, j: int| 0 <= i < j < after.len() implies (#[trigger] after[i]).0
                < (#[trigger] after[j]).0 && after[i].1 != after[j].1 by {
                let ki = if i < at { i } else { i + 1 };
                let kj = if j < at { j } else { j + 1 };
                assert(after[i] == before[ki]);
                assert(after[j] == before[kj]);
            }
        }
    }

    /// Forgets `addr` if it is known.
    fn forget(&mut self, addr: &ConnectableAddr)
        requires
            old(self).wf(),
        ensures
            final(self).wf(),
            final(self).max_known() == old(self).max_known(),
            final(self).clock() == old(self).clock(),
            final(self).entries() == forgotten(old(self).entries(), addr@),
            !holds(final(self).entries(), addr@),
    {
        let ghost entries = self.entries();
        let ghost key = addr@;
        let ghost pred = is_other(key);
        match self.position(addr) {
            Some(at) => {
                self.forget_at(at);
                proof {
                    assert forall|i: int| 0 <= i < entries.len() && i != at implies pred(
                        #[trigger] entries[i],
                    ) by {
                        if i < at {
                            assert(entries[i].1 != entries[at as int].1);
                        } else {
                            assert(entries[at as int].1 != entries[i].1);
                        }
                    }
                    lemma_filter_drops_one(entries, pred, at as int);
                    let after = self.entries();
                    if holds(after, key) {
                        let i = choose|i: int| 0 <= i < after.len() && (#[trigger] after[i]).1 == key;
                        let k = if i < at { i } else { i + 1 };
                        assert(after[i] == entries[k]);
                        assert(pred(entries[k]));
                    }
                }
            },
            None => {
                proof {
                    assert forall|i: int| 0 <= i < entries.len() implies pred(
                        #[trigger] entries[i],
                    ) by {
                        if !pred(entries[i]) {
                            assert(holds(entries, key));
                        }
                    }
                    lemma_filter_keeps_all(entries, pred);
                }
            },
        }
    }

    /// Inserts `key` as of the clock reading `now`, in nanoseconds.
    ///
    /// The key is recorded under a time later than that of every insert
    /// before it. If the key was known, its earlier entry is replaced. If the
    /// set then holds more than its bound, the oldest entry is evicted.
    pub fn insert_at(&mut self, key: ConnectableAddr, now: u64)
        requires
            old(self).wf(),
            old(self).clock() < u64::MAX,
        ensures
            final(self).wf(),
            final(self).max_known() == old(self).max_known(),
            final(self).clock() == stamp(old(self).clock(), now),
            final(self).entries() == inserted(
                old(self).entries(),
                key@,
                stamp(old(self).clock(), now) as u64,
                old(self).max_known(),
            ),
    {
        let time: u64 = if now > self.clock {
            now
        } else {
            self.clock + 1
        };
        self.forget(&key);
        let ghost base = self.entries();
        let ghost base_addrs = self.addrs();
        let ghost base_times = self.addr_times();
        self.addrs.push(key.clone());
        self.addr_times.push((key.clone(), time));
        self.time_addrs.push((time, key));
        self.clock = time;
        let ghost added = base.push((time, key@));
        proof {
            assert(self.addrs() =~= base_addrs.push(key@));
            assert(self.addr_times() =~= base_times.push((key@, time)));
            assert(self.time_addrs() =~= added);
            assert forall|i: int, j: int| 0 <= i < j < added.len() implies (#[trigger] added[i]).0
                < (#[trigger] added[j]).0 && added[i].1 != added[j].1 by {
                if j == base.len() {
                    assert(added[i] == base[i]);
                    if base[i].1 == key@ {
                        assert(holds(base, key@));
                    }
                } else {
                    assert(added[i] == base[i]);
                    assert(added[j] == base[j]);
                }
            }
        }
        if self.addrs.len() > self.max_known {
            self.addrs.remove(0);
            self.addr_times.remove(0);
            self.time_addrs.remove(0);
            proof {
                assert(self.addrs() =~= base_addrs.push(key@).skip(1));
                assert(self.addr_times() =~= base_times.push((key@, time)).skip(1));
                assert(self.time_addrs() =~= added.skip(1));
                let after = self.time_addrs();
                assert forall|i: int, j: int| 0 <= i < j < after.len() implies (
                #[trigger] after[i]).0 < (#[trigger] after[j]).0 && after[i].1 != after[j].1 by {
                    assert(after[i] == added[i + 1]);
                    assert(after[j] == added[j + 1]);
                }
                assert forall|i: int| 0 <= i < after.len() implies {
                    &&& self.addrs()[i] == (#[trigger] after[i]).1
                    &&& self.addr_times()[i] == (after[i].1, after[i].0)
                    &&& after[i].0 <= self.clock()
                } by {
                    assert(after[i] == added[i + 1]);
                }
            }
        }
    }

    /// Inserts `key` as of now.
    pub fn insert(&mut self, key: ConnectableAddr)
        requires
            old(self).wf(),
            old(self).clock() < u64::MAX,
        ensures
            final(self).wf(),
            final(self).max_known() == old(self).max_known(),
            exists|now: u64|
                {
                    &&& final(self).clock() == stamp(old(self).clock(), now)
                    &&& final(self).entries() == #[trigger] inserted(
                        old(self).entries(),
                        key@,
                        stamp(old(self).clock(), now) as u64,
                        old(self).max_known(),
                    )
                },
    {
        let elapsed = instant_elapsed(&self.origin);
        let nanos: u128 = duration_as_nanos(&elapsed);
        let now: u64 = if nanos > u64::MAX as u128 {
            u64::MAX
        } else {
            nanos as u64
        };
        self.insert_at(key, now);
    }

    /// Forgets every address of `addrs`.
    pub fn remove(&mut self, addrs: &[ConnectableAddr])
        requires
            old(self).wf(),
        ensures
            final(self).wf(),
            final(self).max_known() == old(self).max_known(),
            final(self).clock() == old(self).clock(),
            final(self).entries() == forgotten_all(
                old(self).entries(),
                addrs@.map_values(|a: ConnectableAddr| a@),
            ),
    {
        let ghost keys = addrs@.map_values(|a: ConnectableAddr| a@);
        let mut i: usize = 0;
        assert(keys.skip(0) =~= keys);
        while i < addrs.len()
            invariant
                i <= addrs@.len(),
                keys == addrs@.map_values(|a: ConnectableAddr| a@),
                self.wf(),
                self.max_known() == old(self).max_known(),
                self.clock() == old(self).clock(),
                forgotten_all(self.entries(), keys.skip(i as int)) == forgotten_all(
                    old(self).entries(),
                    keys,
                ),
            decreases addrs@.len() - i,
        {
            proof {
                assert(keys.skip(i as int)[0] == addrs@[i as int]@);
                assert(keys.skip(i as int).skip(1) =~= keys.skip(i + 1));
            }
            self.forget(&addrs[i]);
            i += 1;
        }
    }
}

impl Default for AddrKnown {
    fn default() -> (r: AddrKnown)
        ensures
            r.wf(),
            r.max_known() == DEFAULT_MAX_KNOWN,
            r.entries() == Seq::<Entry>::empty(),
    {
        AddrKnown::new(DEFAULT_MAX_KNOWN)
    }
}

} // verus!
