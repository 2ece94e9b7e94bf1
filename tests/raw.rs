use horizon_sockets::raw::{
    decode_sockaddr, from_sockaddr, sockaddr_image, to_sockaddr, Domain, SockAddr, SocketAddress,
};
use horizon_sockets::Platform;

fn linux() -> Platform {
    Platform {
        af_inet: 2,
        af_inet6: 10,
        len_prefixed: false,
        little_endian: true,
        would_block: 11,
        batch_receive: true,
        reuse_port: true,
        busy_poll: true,
        quick_ack: true,
    }
}

fn bsd() -> Platform {
    Platform {
        af_inet: 2,
        af_inet6: 30,
        len_prefixed: true,
        little_endian: true,
        would_block: 35,
        batch_receive: false,
        reuse_port: true,
        busy_poll: false,
        quick_ack: false,
    }
}

fn big_endian() -> Platform {
    Platform { little_endian: false, ..linux() }
}

fn v6_sample() -> SocketAddress {
    SocketAddress::v6([0xfe, 0x80, 0, 0, 0, 0, 0, 0, 0, 0, 0, 0, 0, 0, 0, 1], 8080, 0x12345, 3)
}

#[test]
fn to_sockaddr_v4_fields() {
    let a = SocketAddress::v4([127, 0, 0, 1], 8080);
    let (d, sa, len) = to_sockaddr(&a, &linux());
    assert_eq!(d, Domain::Ipv4);
    assert_eq!(len, 16);
    match sa {
        SockAddr::V4(s) => {
            assert_eq!(s.family, 2);
            assert_eq!(s.port, [0x1f, 0x90]);
            assert_eq!(s.addr, [127, 0, 0, 1]);
        }
        SockAddr::V6(_) => panic!("expected an IPv4 structure"),
    }
}

#[test]
fn to_sockaddr_v6_keeps_flowinfo_and_scope() {
    let (d, sa, len) = to_sockaddr(&v6_sample(), &linux());
    assert_eq!(d, Domain::Ipv6);
    assert_eq!(len, 28);
    match sa {
        SockAddr::V6(s) => {
            assert_eq!(s.family, 10);
            assert_eq!(s.port, [0x1f, 0x90]);
            assert_eq!(s.flowinfo, 0x12345);
            assert_eq!(s.scope_id, 3);
            assert_eq!(s.addr[0], 0xfe);
        }
        SockAddr::V4(_) => panic!("expected an IPv6 structure"),
    }
}

#[test]
fn native_round_trip_both_families() {
    for a in [SocketAddress::v4([10, 1, 2, 3], 65535), v6_sample(), SocketAddress::ipv6_unspecified(0)] {
        let (_, sa, _) = to_sockaddr(&a, &linux());
        assert_eq!(from_sockaddr(&sa), a);
    }
}

#[test]
fn image_of_v4_on_linux() {
    let a = SocketAddress::v4([192, 168, 1, 2], 0x1234);
    let (_, sa, _) = to_sockaddr(&a, &linux());
    assert_eq!(
        sockaddr_image(&sa, &linux()),
        vec![2, 0, 0x12, 0x34, 192, 168, 1, 2, 0, 0, 0, 0, 0, 0, 0, 0]
    );
}

#[test]
fn image_of_v6_on_bsd_has_length_prefix() {
    let (_, sa, _) = to_sockaddr(&v6_sample(), &bsd());
    let img = sockaddr_image(&sa, &bsd());
    assert_eq!(img.len(), 28);
    assert_eq!(&img[0..4], &[28, 30, 0x1f, 0x90]);
    assert_eq!(&img[4..8], &[0x45, 0x23, 0x01, 0x00]);
    assert_eq!(&img[24..28], &[3, 0, 0, 0]);
}

#[test]
fn image_round_trip_on_every_layout() {
    for pf in [linux(), bsd(), big_endian()] {
        for a in [SocketAddress::v4([1, 2, 3, 4], 53), v6_sample()] {
            let (_, sa, _) = to_sockaddr(&a, &pf);
            let mut storage = sockaddr_image(&sa, &pf);
            storage.resize(128, 0xaa);
            assert_eq!(decode_sockaddr(&storage, &pf), a);
        }
    }
}

#[test]
fn decode_reads_family_in_host_order() {
    let pf = big_endian();
    let a = SocketAddress::v4([8, 8, 4, 4], 443);
    let (_, sa, _) = to_sockaddr(&a, &pf);
    let img = sockaddr_image(&sa, &pf);
    assert_eq!(&img[0..2], &[0, 2]);
    assert_eq!(decode_sockaddr(&img, &pf), a);
}

#[test]
fn unknown_family_is_read_as_ipv6() {
    let mut b = vec![0u8; 28];
    b[0] = 99;
    b[3] = 7;
    b[23] = 1;
    match decode_sockaddr(&b, &linux()) {
        SocketAddress::V6(v) => {
            assert_eq!(v.port, 7);
            assert_eq!(v.ip[15], 1);
        }
        SocketAddress::V4(_) => panic!("expected IPv6"),
    }
}

#[test]
fn address_accessors() {
    let a = SocketAddress::v4([127, 0, 0, 1], 9);
    assert_eq!(a.port(), 9);
    assert_eq!(a.domain(), Domain::Ipv4);
    assert_eq!(SocketAddress::ipv6_unspecified(5).domain(), Domain::Ipv6);
    assert!(linux().is_valid());
    assert!(!Platform { af_inet6: 2, ..linux() }.is_valid());
}
