use tentacle::multiaddr::{write_bytes, write_varint, Multiaddr, Protocol};

fn wire(part: &Protocol) -> Vec<u8> {
    let mut buf = Vec::new();
    part.write_to_bytes(&mut buf);
    buf
}

#[test]
fn varint_encoding() {
    let cases: [(usize, Vec<u8>); 7] = [
        (0, vec![0]),
        (1, vec![1]),
        (127, vec![127]),
        (128, vec![0x80, 0x01]),
        (300, vec![0xac, 0x02]),
        (448, vec![0xc0, 0x03]),
        (16384, vec![0x80, 0x80, 0x01]),
    ];
    for (n, expected) in cases {
        let mut buf = Vec::new();
        write_varint(n, &mut buf);
        assert_eq!(buf, expected);
    }
}

#[test]
fn writing_appends() {
    let mut buf = vec![9u8];
    write_varint(300, &mut buf);
    write_bytes(&[1, 2], &mut buf);
    assert_eq!(buf, vec![9, 0xac, 0x02, 1, 2]);
}

#[test]
fn wire_form_of_each_component() {
    assert_eq!(wire(&Protocol::Ip4([127, 0, 0, 1])), vec![4, 127, 0, 0, 1]);
    let mut ip6 = vec![41u8];
    ip6.extend_from_slice(&[0x20, 0x01, 0, 0, 0, 0, 0, 0, 0, 0, 0, 0, 0, 0, 0, 1]);
    assert_eq!(wire(&Protocol::Ip6([0x20, 0x01, 0, 0, 0, 0, 0, 0, 0, 0, 0, 0, 0, 0, 0, 1])), ip6);
    assert_eq!(wire(&Protocol::Tcp(80)), vec![6, 0, 80]);
    assert_eq!(wire(&Protocol::Tcp(0x1f90)), vec![6, 0x1f, 0x90]);
    assert_eq!(wire(&Protocol::Dns4("ab".to_string())), vec![54, 2, 97, 98]);
    assert_eq!(wire(&Protocol::Dns6("ab".to_string())), vec![55, 2, 97, 98]);
    assert_eq!(wire(&Protocol::Tls("é".to_string())), vec![0xc0, 0x03, 2, 0xc3, 0xa9]);
    assert_eq!(wire(&Protocol::P2p(vec![7, 8, 9])), vec![0xa5, 0x03, 3, 7, 8, 9]);
    assert_eq!(wire(&Protocol::Ws), vec![0xdd, 0x03]);
    assert_eq!(wire(&Protocol::Wss), vec![0xde, 0x03]);
    let long = "x".repeat(200);
    let bytes = wire(&Protocol::Dns4(long));
    assert_eq!(bytes.len(), 1 + 2 + 200);
    assert_eq!(&bytes[..3], &[54, 0xc8, 0x01]);
}

#[test]
fn host_components() {
    assert!(Protocol::Ip4([1, 2, 3, 4]).is_host());
    assert!(Protocol::Ip6([0; 16]).is_host());
    assert!(Protocol::Dns4("a".to_string()).is_host());
    assert!(Protocol::Dns6("a".to_string()).is_host());
    assert!(Protocol::Tls("a".to_string()).is_host());
    assert!(!Protocol::Tcp(1).is_host());
    assert!(!Protocol::Ws.is_host());
    assert!(!Protocol::Wss.is_host());
    assert!(!Protocol::P2p(vec![]).is_host());
}

#[test]
fn multiaddr_holds_its_parts_in_order() {
    let mut addr = Multiaddr::empty();
    assert_eq!(addr.len(), 0);
    assert!(addr.get(0).is_none());
    addr.push(Protocol::Ip4([1, 2, 3, 4]));
    addr.push(Protocol::Tcp(80));
    assert_eq!(addr.len(), 2);
    assert!(matches!(addr.get(0), Some(Protocol::Ip4([1, 2, 3, 4]))));
    assert!(matches!(addr.get(1), Some(Protocol::Tcp(80))));
    assert!(addr.get(2).is_none());
    let copy = addr.clone();
    assert_eq!(copy.len(), 2);
    assert!(matches!(copy.get(1), Some(Protocol::Tcp(80))));
    let built = Multiaddr::from_parts(vec![Protocol::Ws]);
    assert!(matches!(built.get(0), Some(Protocol::Ws)));
}

#[test]
fn addresses_that_the_transport_can_carry() {
    let host = || Protocol::Ip6([0; 16]);
    let name = || Protocol::Dns6("n".to_string());
    let tls = || Protocol::Tls("n".to_string());
    let peer = || Protocol::P2p(vec![1]);
    let yes: Vec<Vec<Protocol>> = vec![
        vec![host(), Protocol::Tcp(1)],
        vec![name(), Protocol::Tcp(1)],
        vec![Protocol::Ip4([1, 2, 3, 4]), Protocol::Tcp(1), Protocol::Ws],
        vec![Protocol::Dns4("n".to_string()), Protocol::Tcp(1), Protocol::Wss, peer()],
        vec![host(), Protocol::Tcp(1), tls(), peer()],
        vec![host(), Protocol::Tcp(1), tls(), Protocol::Ws, peer()],
        vec![host(), Protocol::Tcp(1), peer()],
    ];
    for parts in yes {
        assert!(Multiaddr::from_parts(parts).is_supported());
    }
    let no: Vec<Vec<Protocol>> = vec![
        vec![],
        vec![host()],
        vec![Protocol::Tcp(1)],
        vec![Protocol::Tcp(1), host()],
        vec![host(), host(), Protocol::Tcp(1)],
        vec![host(), Protocol::Tcp(1), Protocol::Tcp(2)],
        vec![host(), Protocol::Tcp(1), Protocol::Ws, tls()],
        vec![host(), Protocol::Tcp(1), Protocol::Ws, Protocol::Wss],
        vec![host(), Protocol::Tcp(1), peer(), Protocol::Ws],
        vec![host(), Protocol::Tcp(1), peer(), peer()],
        vec![tls(), Protocol::Tcp(1)],
        vec![host(), Protocol::Ws],
    ];
    for parts in no {
        assert!(!Multiaddr::from_parts(parts).is_supported());
    }
    assert_eq!(host().rank(), 0);
    assert_eq!(Protocol::Tcp(1).rank(), 1);
    assert_eq!(tls().rank(), 2);
    assert_eq!(Protocol::Ws.rank(), 3);
    assert_eq!(Protocol::Wss.rank(), 3);
    assert_eq!(peer().rank(), 4);
}
