use tentacle::addr::{AddrKnown, ConnectableAddr, MisbehaveResult, DEFAULT_MAX_KNOWN};
use tentacle::multiaddr::{Multiaddr, Protocol};

fn v4(i: u32) -> ConnectableAddr {
    ConnectableAddr::from_ip4([10, (i >> 16) as u8, (i >> 8) as u8, i as u8], 8000)
}

#[test]
fn misbehave_result_predicates() {
    assert!(MisbehaveResult::Continue.is_continue());
    assert!(!MisbehaveResult::Continue.is_disconnect());
    assert!(MisbehaveResult::Disconnect.is_disconnect());
    assert!(!MisbehaveResult::Disconnect.is_continue());
}

#[test]
fn addr_known_evicts_the_oldest() {
    let mut known = AddrKnown::new(5000);
    let mut all = Vec::new();
    for i in 0..5001u32 {
        let addr = v4(i);
        all.push(addr.clone());
        known.insert_at(addr, 1 + i as u64);
    }
    assert_eq!(known.len(), 5000);
    assert!(!known.contains(&all[0]));
    for addr in &all[1..] {
        assert!(known.contains(addr));
    }
}

#[test]
fn addr_known_default_bound() {
    assert_eq!(DEFAULT_MAX_KNOWN, 5000);
    let mut known = AddrKnown::default();
    for i in 0..5002u32 {
        known.insert(v4(i));
    }
    assert_eq!(known.len(), 5000);
    assert!(!known.contains(&v4(0)));
    assert!(!known.contains(&v4(1)));
    assert!(known.contains(&v4(2)));
    assert!(known.contains(&v4(5001)));
}

#[test]
fn inserts_at_the_same_instant_are_told_apart() {
    let mut known = AddrKnown::new(2);
    known.insert_at(v4(1), 100);
    known.insert_at(v4(2), 100);
    known.insert_at(v4(3), 100);
    assert_eq!(known.len(), 2);
    assert!(!known.contains(&v4(1)));
    assert!(known.contains(&v4(2)));
    assert!(known.contains(&v4(3)));
    // A clock that reads less than before does not make an entry older.
    known.insert_at(v4(4), 5);
    assert!(!known.contains(&v4(2)));
    assert!(known.contains(&v4(3)));
    assert!(known.contains(&v4(4)));
}

#[test]
fn inserting_a_known_address_makes_it_the_youngest() {
    let mut known = AddrKnown::new(2);
    known.insert_at(v4(1), 1);
    known.insert_at(v4(2), 2);
    known.insert_at(v4(1), 3);
    assert_eq!(known.len(), 2);
    known.insert_at(v4(3), 4);
    assert_eq!(known.len(), 2);
    assert!(known.contains(&v4(1)));
    assert!(!known.contains(&v4(2)));
    assert!(known.contains(&v4(3)));
}

#[test]
fn a_set_of_bound_zero_holds_nothing() {
    let mut known = AddrKnown::new(0);
    known.insert_at(v4(1), 1);
    assert_eq!(known.len(), 0);
    assert!(!known.contains(&v4(1)));
}

#[test]
fn remove_forgets_each_address() {
    let mut known = AddrKnown::new(10);
    for i in 0..5 {
        known.insert_at(v4(i), 10 + i as u64);
    }
    known.remove(&[v4(1), v4(3), v4(7), v4(1)]);
    assert_eq!(known.len(), 3);
    assert!(known.contains(&v4(0)));
    assert!(!known.contains(&v4(1)));
    assert!(known.contains(&v4(2)));
    assert!(!known.contains(&v4(3)));
    assert!(known.contains(&v4(4)));
    // Eviction still takes the oldest of what is left.
    let mut small = AddrKnown::new(2);
    small.insert_at(v4(1), 1);
    small.insert_at(v4(2), 2);
    small.remove(&[v4(1)]);
    small.insert_at(v4(3), 3);
    small.insert_at(v4(4), 4);
    assert!(!small.contains(&v4(2)));
    assert!(small.contains(&v4(3)));
    assert!(small.contains(&v4(4)));
}

#[test]
fn connectable_addr_takes_the_first_host_and_the_port() {
    let addr = Multiaddr::from_parts(vec![
        Protocol::Ip4([1, 2, 3, 4]),
        Protocol::Tcp(80),
        Protocol::Ws,
        Protocol::P2p(vec![1, 2, 3]),
    ]);
    assert!(ConnectableAddr::is_connectable(&addr));
    let connectable = ConnectableAddr::from(&addr);
    assert_eq!(connectable.host(), vec![4, 1, 2, 3, 4]);
    assert_eq!(connectable.port(), 80);
    assert!(connectable == ConnectableAddr::from_ip4([1, 2, 3, 4], 80));
    assert!(connectable != ConnectableAddr::from_ip4([1, 2, 3, 4], 81));
    assert!(connectable != ConnectableAddr::from_ip4([1, 2, 3, 5], 80));

    // Other components, and their order, make no difference.
    let other = Multiaddr::from_parts(vec![
        Protocol::Tcp(80),
        Protocol::P2p(vec![9]),
        Protocol::Ip4([1, 2, 3, 4]),
    ]);
    assert!(ConnectableAddr::from(&other) == connectable);

    // The first host counts, and the last port.
    let twice = Multiaddr::from_parts(vec![
        Protocol::Dns4("a".to_string()),
        Protocol::Tcp(1),
        Protocol::Ip4([1, 2, 3, 4]),
        Protocol::Tcp(2),
    ]);
    let connectable = ConnectableAddr::from(&twice);
    assert_eq!(connectable.host(), vec![54, 1, 97]);
    assert_eq!(connectable.port(), 2);
}

#[test]
fn connectable_addr_without_a_port_has_port_zero() {
    let addr = Multiaddr::from_parts(vec![Protocol::Dns6("node".to_string())]);
    let connectable = ConnectableAddr::from(&addr);
    assert_eq!(connectable.port(), 0);
    assert_eq!(connectable.host(), vec![55, 4, 110, 111, 100, 101]);
}

#[test]
fn an_address_without_a_host_is_not_connectable() {
    let addr = Multiaddr::from_parts(vec![Protocol::Tcp(80), Protocol::Ws]);
    assert!(!ConnectableAddr::is_connectable(&addr));
    assert!(!ConnectableAddr::is_connectable(&Multiaddr::empty()));
}

#[test]
fn connectable_addr_from_a_socket_address() {
    let v6 = ConnectableAddr::from_ip6([0, 0, 0, 0, 0, 0, 0, 0, 0, 0, 0, 0, 0, 0, 0, 1], 9);
    let mut expected = vec![41u8];
    expected.extend_from_slice(&[0; 15]);
    expected.push(1);
    assert_eq!(v6.host(), expected);
    assert_eq!(v6.port(), 9);
    let copy = v6.clone();
    assert!(copy == v6);
    assert_eq!(copy.host(), v6.host());
}

fn reach4(ip: [u8; 4]) -> bool {
    ConnectableAddr::from_ip4(ip, 1).is_reachable()
}

fn reach6(head: [u8; 4], last: u8) -> bool {
    let mut ip = [0u8; 16];
    ip[..4].copy_from_slice(&head);
    ip[15] = last;
    ConnectableAddr::from_ip6(ip, 1).is_reachable()
}

#[test]
fn reachability_of_ip4_addresses() {
    assert!(reach4([8, 8, 8, 8]));
    assert!(reach4([1, 2, 3, 4]));
    assert!(reach4([172, 15, 0, 1]));
    assert!(reach4([172, 32, 0, 1]));
    assert!(reach4([192, 169, 0, 1]));
    assert!(reach4([255, 255, 255, 254]));
    assert!(!reach4([10, 0, 0, 1]));
    assert!(!reach4([172, 16, 0, 1]));
    assert!(!reach4([172, 31, 255, 255]));
    assert!(!reach4([192, 168, 1, 1]));
    assert!(!reach4([127, 0, 0, 1]));
    assert!(!reach4([169, 254, 0, 1]));
    assert!(!reach4([255, 255, 255, 255]));
    assert!(!reach4([192, 0, 2, 1]));
    assert!(!reach4([198, 51, 100, 1]));
    assert!(!reach4([203, 0, 113, 1]));
    assert!(!reach4([0, 0, 0, 0]));
}

#[test]
fn reachability_of_ip6_addresses() {
    assert!(reach6([0x20, 0x01, 0x48, 0x60], 1));
    assert!(reach6([0, 0, 0, 0], 2));
    assert!(!reach6([0, 0, 0, 0], 1));
    assert!(!reach6([0, 0, 0, 0], 0));
    assert!(!reach6([0xfe, 0x80, 0, 0], 1));
    assert!(!reach6([0xfe, 0xbf, 0, 0], 1));
    assert!(!reach6([0xfe, 0xc0, 0, 0], 1));
    assert!(!reach6([0xfc, 0, 0, 0], 1));
    assert!(!reach6([0xfd, 0, 0, 0], 1));
    assert!(!reach6([0x20, 0x01, 0x0d, 0xb8], 1));
    assert!(reach6([0xff, 0x0e, 0, 0], 1));
    assert!(reach6([0xff, 0x1e, 0, 0], 1));
    assert!(!reach6([0xff, 0x02, 0, 0], 1));
    assert!(!reach6([0xff, 0x05, 0, 0], 1));
}

#[test]
fn names_are_taken_to_be_reachable() {
    for part in [
        Protocol::Dns4("localhost".to_string()),
        Protocol::Dns6("localhost".to_string()),
        Protocol::Tls("example.org".to_string()),
        // A name of four bytes makes a host as long as an IPv4 host.
        Protocol::Dns4("abc".to_string()),
    ] {
        let addr = Multiaddr::from_parts(vec![part, Protocol::Tcp(80)]);
        assert!(ConnectableAddr::from(&addr).is_reachable());
    }
}

#[test]
fn connectable_addrs_hash_and_order_by_host_then_port() {
    let mut set = std::collections::HashSet::new();
    assert!(set.insert(v4(1)));
    assert!(set.insert(v4(2)));
    assert!(!set.insert(v4(1)));
    assert!(set.contains(&v4(2)));
    assert_eq!(set.len(), 2);
    assert!(v4(1) < v4(2));
    assert!(ConnectableAddr::from_ip4([1, 1, 1, 1], 1) < ConnectableAddr::from_ip4([1, 1, 1, 1], 2));
    assert!(ConnectableAddr::from_ip4([1, 1, 1, 2], 1) > ConnectableAddr::from_ip4([1, 1, 1, 1], 2));
    let mut sorted = vec![v4(3), v4(1), v4(2)];
    sorted.sort();
    assert!(sorted[0] == v4(1) && sorted[1] == v4(2) && sorted[2] == v4(3));
    assert_eq!(format!("{:?}", v4(1)).contains("port: 8000"), true);
}
