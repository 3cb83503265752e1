use tentacle::multiaddr::{Multiaddr, Protocol};
use tentacle::utils::dns::{DNSResolver, DnsStep, Lookup, ResolveError};
use tentacle::utils::{extract_peer_id, is_ws, socketaddr_to_multiaddr, IpAddress, SocketAddress};

fn same(a: &Multiaddr, b: &Multiaddr) -> bool {
    if a.len() != b.len() {
        return false;
    }
    for i in 0..a.len() {
        let mut left = Vec::new();
        let mut right = Vec::new();
        a.get(i).unwrap().write_to_bytes(&mut left);
        b.get(i).unwrap().write_to_bytes(&mut right);
        if left != right {
            return false;
        }
    }
    true
}

/// Reads the addresses that the tests use: `/dns4/<name>`, `/dns6/<name>`,
/// `/ip4/a.b.c.d`, `/ip6/::1`, `/tcp/<port>`, `/ws`, `/p2p/<hex>`.
fn parse(text: &str) -> Multiaddr {
    let mut addr = Multiaddr::empty();
    let mut words = text.split('/').skip(1);
    while let Some(kind) = words.next() {
        let part = match kind {
            "dns4" => Protocol::Dns4(words.next().unwrap().to_string()),
            "dns6" => Protocol::Dns6(words.next().unwrap().to_string()),
            "ip4" => {
                let mut ip = [0u8; 4];
                for (i, n) in words.next().unwrap().split('.').enumerate() {
                    ip[i] = n.parse().unwrap();
                }
                Protocol::Ip4(ip)
            }
            "ip6" => {
                assert_eq!(words.next().unwrap(), "::1");
                let mut ip = [0u8; 16];
                ip[15] = 1;
                Protocol::Ip6(ip)
            }
            "tcp" => Protocol::Tcp(words.next().unwrap().parse().unwrap()),
            "ws" => Protocol::Ws,
            "p2p" => {
                let hex = words.next().unwrap().as_bytes();
                let digit = |c: u8| (c as char).to_digit(16).unwrap() as u8;
                Protocol::P2p(hex.chunks(2).map(|p| digit(p[0]) * 16 + digit(p[1])).collect())
            }
            _ => panic!("unknown component"),
        };
        addr.push(part);
    }
    addr
}

fn localhost() -> Vec<SocketAddress> {
    vec![
        SocketAddress { ip: IpAddress::V4([127, 0, 0, 1]), port: 80 },
        SocketAddress {
            ip: IpAddress::V6([0, 0, 0, 0, 0, 0, 0, 0, 0, 0, 0, 0, 0, 0, 0, 1]),
            port: 80,
        },
    ]
}

fn resolve(source: &str, answer: Vec<SocketAddress>) -> Multiaddr {
    let mut future = DNSResolver::new(parse(source)).unwrap();
    match future.poll(Lookup::Pending) {
        DnsStep::Spawn { .. } => (),
        _ => panic!("the lookup must be started first"),
    }
    assert!(matches!(future.poll(Lookup::Pending), DnsStep::Wait));
    match future.poll(Lookup::Resolved(answer)) {
        DnsStep::Done(Ok(addr)) => addr,
        _ => panic!("Dns resolver fail"),
    }
}

#[test]
fn dns_parser() {
    let mut future: DNSResolver =
        DNSResolver::new(parse("/dns4/localhost/tcp/80")).unwrap();
    let (domain, port) = match future.poll(Lookup::Pending) {
        DnsStep::Spawn { domain, port } => (domain, port),
        _ => panic!("the lookup must be started first"),
    };
    assert_eq!(domain, "localhost");
    assert_eq!(port, 80);
    // The lookup of localhost gives the loopback address of one family or
    // of the other first.
    for answer in [localhost(), localhost().into_iter().rev().collect()] {
        let addr = resolve("/dns4/localhost/tcp/80", answer);
        match addr.get(0).unwrap() {
            Protocol::Ip4(_) => {
                assert!(same(&parse("/ip4/127.0.0.1/tcp/80"), &addr))
            }
            Protocol::Ip6(_) => assert!(same(&parse("/ip6/::1/tcp/80"), &addr)),
            _ => panic!("Dns resolver fail"),
        }
    }
}

#[test]
fn resolution_keeps_ws_and_peer_id() {
    let addr = resolve("/dns4/h/tcp/80/ws/p2p/1220abcd", localhost());
    assert_eq!(addr.len(), 4);
    assert!(matches!(addr.get(0), Some(Protocol::Ip4([127, 0, 0, 1]))));
    assert!(matches!(addr.get(1), Some(Protocol::Tcp(80))));
    assert!(matches!(addr.get(2), Some(Protocol::Ws)));
    match addr.get(3) {
        Some(Protocol::P2p(hash)) => assert_eq!(hash, &vec![0x12, 0x20, 0xab, 0xcd]),
        _ => panic!("the peer id is gone"),
    }
    let plain = resolve("/dns6/h/tcp/81", localhost().into_iter().rev().collect());
    assert_eq!(plain.len(), 2);
    assert!(matches!(plain.get(0), Some(Protocol::Ip6(_))));
    assert!(matches!(plain.get(1), Some(Protocol::Tcp(80))));
    let only_peer = resolve("/dns4/h/tcp/80/p2p/00", localhost());
    assert_eq!(only_peer.len(), 3);
    assert!(matches!(only_peer.get(2), Some(Protocol::P2p(_))));
}

#[test]
fn only_a_name_followed_by_a_port_is_resolved() {
    assert!(DNSResolver::new(parse("/ip4/127.0.0.1/tcp/80")).is_none());
    assert!(DNSResolver::new(parse("/dns4/localhost")).is_none());
    assert!(DNSResolver::new(parse("/dns4/localhost/ws/tcp/80")).is_none());
    assert!(DNSResolver::new(parse("/tcp/80/dns4/localhost")).is_none());
    assert!(DNSResolver::new(Multiaddr::empty()).is_none());
    let later = DNSResolver::new(parse("/ws/dns4/a/ws/dns6/b/tcp/7")).unwrap();
    assert_eq!(later.domain(), "b");
    assert_eq!(later.port(), 7);
    // A name that follows a name is passed over with it.
    assert!(DNSResolver::new(parse("/dns4/a/dns4/b/tcp/7")).is_none());
}

#[test]
fn a_lookup_without_an_address_fails_with_the_source() {
    let mut future = DNSResolver::new(parse("/dns4/nowhere/tcp/80")).unwrap();
    let _ = future.poll(Lookup::Pending);
    match future.poll(Lookup::Resolved(Vec::new())) {
        DnsStep::Done(Err((source, ResolveError::InvalidData))) => {
            assert!(same(&source, &parse("/dns4/nowhere/tcp/80")))
        }
        _ => panic!("expected a failure"),
    }
    let mut direct = DNSResolver::new(parse("/dns4/nowhere/tcp/80")).unwrap();
    assert!(matches!(direct.new_addr(Vec::new()), Err((_, ResolveError::InvalidData))));
}

#[test]
fn a_failed_lookup_fails_with_the_source_and_the_reason() {
    let mut future = DNSResolver::new(parse("/dns4/nowhere/tcp/80/ws")).unwrap();
    let _ = future.poll(Lookup::Pending);
    match future.poll(Lookup::Failed("no such host".to_string())) {
        DnsStep::Done(Err((source, ResolveError::Lookup(text)))) => {
            assert!(same(&source, &parse("/dns4/nowhere/tcp/80/ws")));
            assert_eq!(text, "no such host");
        }
        _ => panic!("expected a failure"),
    }
}

#[test]
fn address_helpers() {
    let addr = parse("/dns4/h/tcp/80/ws/p2p/0102/p2p/03");
    assert!(is_ws(&addr));
    assert_eq!(extract_peer_id(&addr), Some(vec![1, 2]));
    let plain = parse("/ip4/1.2.3.4/tcp/80");
    assert!(!is_ws(&plain));
    assert_eq!(extract_peer_id(&plain), None);
    let socket = SocketAddress { ip: IpAddress::V4([1, 2, 3, 4]), port: 80 };
    assert!(same(&socketaddr_to_multiaddr(socket), &plain));
}
