use talpid_core::net::{Ipv4Addr, Ipv6Addr, SocketAddr, SocketAddrV4, SocketAddrV6};
use talpid_core::windows::sockaddr::{
    in6addr_from_ipaddr, inaddr_from_ipaddr, inet_sockaddr_from_socketaddr, ipaddr_from_in6addr,
    ipaddr_from_inaddr, try_socketaddr_from_inet_sockaddr, In6Addr, InAddr, SockaddrInet,
};
use talpid_core::windows::{
    af_family_from_family, nul_terminated, os_result, AddressFamily, Error, NetLuid, OsError,
};

fn v4(a: u8, b: u8, c: u8, d: u8, port: u16) -> SocketAddr {
    SocketAddr::V4(SocketAddrV4::new(Ipv4Addr::new(a, b, c, d), port))
}

fn v6(segments: [u16; 8], port: u16, flowinfo: u32, scope_id: u32) -> SocketAddr {
    let s = segments;
    SocketAddr::V6(SocketAddrV6::new(
        Ipv6Addr::new(s[0], s[1], s[2], s[3], s[4], s[5], s[6], s[7]),
        port,
        flowinfo,
        scope_id,
    ))
}

#[test]
fn test_sockaddr_v4() {
    let addr_v4 = SocketAddr::V4(SocketAddrV4::new(Ipv4Addr::new(1, 2, 3, 4), 1234));
    assert_eq!(
        addr_v4,
        try_socketaddr_from_inet_sockaddr(inet_sockaddr_from_socketaddr(addr_v4)).unwrap()
    );
}

#[test]
fn test_sockaddr_v6() {
    let addr_v6 = SocketAddr::V6(SocketAddrV6::new(
        Ipv6Addr::new(1, 2, 3, 4, 5, 6, 7, 8),
        1234,
        0xa,
        0xb,
    ));
    assert_eq!(
        addr_v6,
        try_socketaddr_from_inet_sockaddr(inet_sockaddr_from_socketaddr(addr_v6)).unwrap()
    );
}

#[test]
fn v4_image_is_laid_out_byte_for_byte() {
    let image = inet_sockaddr_from_socketaddr(v4(1, 2, 3, 4, 1234));
    let mut expected = [0u8; 28];
    expected[0] = 2;
    expected[2] = 0x04;
    expected[3] = 0xd2;
    expected[4] = 1;
    expected[5] = 2;
    expected[6] = 3;
    expected[7] = 4;
    assert_eq!(image.bytes, expected);
    assert_eq!(image.si_family(), 2);
}

#[test]
fn v6_image_is_laid_out_byte_for_byte() {
    let image = inet_sockaddr_from_socketaddr(v6(
        [0x2001, 0x0db8, 0, 0, 0, 0, 0xabcd, 0x0001],
        0x1f90,
        0x0102_0304,
        0xa0b0_c0d0,
    ));
    let expected: [u8; 28] = [
        23, 0, 0x1f, 0x90, 0x04, 0x03, 0x02, 0x01, 0x20, 0x01, 0x0d, 0xb8, 0, 0, 0, 0, 0, 0, 0, 0,
        0xab, 0xcd, 0x00, 0x01, 0xd0, 0xc0, 0xb0, 0xa0,
    ];
    assert_eq!(image.bytes, expected);
    assert_eq!(image.si_family(), 23);
}

#[test]
fn port_is_written_high_byte_first() {
    let image = inet_sockaddr_from_socketaddr(v4(0, 0, 0, 0, 0x0100));
    assert_eq!((image.bytes[2], image.bytes[3]), (1, 0));
    let image = inet_sockaddr_from_socketaddr(v4(0, 0, 0, 0, 0x00ff));
    assert_eq!((image.bytes[2], image.bytes[3]), (0, 0xff));
}

#[test]
fn round_trip_of_ipv4_edges() {
    let octets = [0u8, 1, 127, 128, 254, 255];
    let ports = [0u16, 1, 255, 256, 1234, 0x7fff, 0x8000, 0xffff];
    for a in octets {
        for d in octets {
            for port in ports {
                let addr = v4(a, d, 255 - a, 255 - d, port);
                let back = try_socketaddr_from_inet_sockaddr(inet_sockaddr_from_socketaddr(addr));
                assert_eq!(back, Ok(addr));
            }
        }
    }
}

#[test]
fn round_trip_of_ipv6_with_flow_label_and_scope_id() {
    let words = [0u32, 1, 0xa, 0xff, 0x100, 0xffff, 0x1_0000, 0x00ff_ffff, 0x0100_0000, u32::MAX];
    for flowinfo in words {
        for scope_id in words {
            let addr = v6(
                [0xfe80, 0, 0, 0, 0x0202, 0xb3ff, 0xfe1e, 0x8329],
                51820,
                flowinfo,
                scope_id,
            );
            let back = try_socketaddr_from_inet_sockaddr(inet_sockaddr_from_socketaddr(addr));
            assert_eq!(back, Ok(addr));
        }
    }
    let all_ones = v6([0xffff; 8], 0xffff, u32::MAX, u32::MAX);
    assert_eq!(
        try_socketaddr_from_inet_sockaddr(inet_sockaddr_from_socketaddr(all_ones)),
        Ok(all_ones)
    );
    let all_zero = v6([0; 8], 0, 0, 0);
    assert_eq!(
        try_socketaddr_from_inet_sockaddr(inet_sockaddr_from_socketaddr(all_zero)),
        Ok(all_zero)
    );
}

#[test]
fn unknown_family_is_refused_with_its_tag() {
    let mut image = inet_sockaddr_from_socketaddr(v4(10, 0, 0, 1, 80));
    image.bytes[0] = 99;
    assert_eq!(
        try_socketaddr_from_inet_sockaddr(image),
        Err(Error::UnknownAddressFamily(99))
    );
    let zeroed = SockaddrInet { bytes: [0u8; 28] };
    assert_eq!(
        try_socketaddr_from_inet_sockaddr(zeroed),
        Err(Error::UnknownAddressFamily(0))
    );
    let mut high = SockaddrInet { bytes: [0u8; 28] };
    high.bytes[0] = 0xff;
    high.bytes[1] = 0xff;
    assert_eq!(
        try_socketaddr_from_inet_sockaddr(high),
        Err(Error::UnknownAddressFamily(65535))
    );
    let mut second_byte = SockaddrInet { bytes: [0u8; 28] };
    second_byte.bytes[0] = 2;
    second_byte.bytes[1] = 1;
    assert_eq!(
        try_socketaddr_from_inet_sockaddr(second_byte),
        Err(Error::UnknownAddressFamily(258))
    );
}

#[test]
fn every_other_tag_is_refused() {
    for tag in 0..=u16::MAX {
        let mut image = SockaddrInet { bytes: [0u8; 28] };
        image.bytes[0] = (tag % 256) as u8;
        image.bytes[1] = (tag / 256) as u8;
        let result = try_socketaddr_from_inet_sockaddr(image);
        match tag {
            2 => assert_eq!(result, Ok(v4(0, 0, 0, 0, 0))),
            23 => assert_eq!(result, Ok(v6([0; 8], 0, 0, 0))),
            other => assert_eq!(result, Err(Error::UnknownAddressFamily(other as i32))),
        }
    }
}

#[test]
fn ipv4_decoding_ignores_the_unused_bytes() {
    let mut image = inet_sockaddr_from_socketaddr(v4(192, 168, 1, 20, 443));
    for i in 8..28 {
        image.bytes[i] = 0xee;
    }
    assert_eq!(
        try_socketaddr_from_inet_sockaddr(image),
        Ok(v4(192, 168, 1, 20, 443))
    );
}

#[test]
fn native_addresses_hold_the_octets_in_order() {
    let ip = Ipv4Addr::new(193, 138, 218, 78);
    let native = inaddr_from_ipaddr(ip);
    assert_eq!(native, InAddr { bytes: [193, 138, 218, 78] });
    assert_eq!(ipaddr_from_inaddr(native), ip);

    let ip6 = Ipv6Addr::new(1, 2, 3, 4, 5, 6, 7, 0x0809);
    let native6 = in6addr_from_ipaddr(ip6);
    assert_eq!(
        native6,
        In6Addr { bytes: [0, 1, 0, 2, 0, 3, 0, 4, 0, 5, 0, 6, 0, 7, 8, 9] }
    );
    assert_eq!(ipaddr_from_in6addr(native6), ip6);
    assert_eq!(ip6.octets(), [0, 1, 0, 2, 0, 3, 0, 4, 0, 5, 0, 6, 0, 7, 8, 9]);
    assert_eq!(ip.octets(), [193, 138, 218, 78]);
}

#[test]
fn socket_addr_accessors() {
    assert_eq!(v4(1, 2, 3, 4, 1234).port(), 1234);
    assert_eq!(v6([0; 8], 4321, 0, 0).port(), 4321);
    assert!(v4(1, 2, 3, 4, 1234).is_ipv4());
    assert!(!v6([0; 8], 4321, 0, 0).is_ipv4());
}

#[test]
fn address_family_tags() {
    assert_eq!(AddressFamily::try_from_af_family(2), Ok(AddressFamily::Ipv4));
    assert_eq!(AddressFamily::try_from_af_family(23), Ok(AddressFamily::Ipv6));
    assert_eq!(
        AddressFamily::try_from_af_family(0),
        Err(Error::UnknownAddressFamily(0))
    );
    assert_eq!(
        AddressFamily::try_from_af_family(24),
        Err(Error::UnknownAddressFamily(24))
    );
    assert_eq!(
        AddressFamily::try_from_af_family(u16::MAX),
        Err(Error::UnknownAddressFamily(65535))
    );
    assert_eq!(AddressFamily::Ipv4.to_af_family(), 2);
    assert_eq!(AddressFamily::Ipv6.to_af_family(), 23);
    assert_eq!(af_family_from_family(None), 0);
    assert_eq!(af_family_from_family(Some(AddressFamily::Ipv4)), 2);
    assert_eq!(af_family_from_family(Some(AddressFamily::Ipv6)), 23);
    assert_eq!(AddressFamily::Ipv4.describe(), "IPv4 (AF_INET)");
    assert_eq!(AddressFamily::Ipv6.describe(), "IPv6 (AF_INET6)");
}

#[test]
fn status_is_success_or_the_error_with_its_code() {
    assert_eq!(os_result(0), Ok(()));
    assert_eq!(os_result(5), Err(OsError { code: 5 }));
    assert_eq!(os_result(1168), Err(OsError { code: 1168 }));
    assert_eq!(os_result(0x7fff_ffff), Err(OsError { code: i32::MAX }));
    assert_eq!(os_result(0x8000_0000), Err(OsError { code: i32::MIN }));
    assert_eq!(os_result(u32::MAX), Err(OsError { code: -1 }));
    assert_eq!(OsError::from_status(0x8007_0005).raw_os_error(), 0x8007_0005u32 as i32);
    assert_eq!(OsError::from_raw_os_error(-7).raw_os_error(), -7);
    assert_eq!(NetLuid::new(42).value, 42);
}

#[test]
fn alias_is_closed_by_a_zero_unit() {
    assert_eq!(nul_terminated(Vec::new()), vec![0]);
    let alias: Vec<u16> = "Tunnel0".encode_utf16().collect();
    assert_eq!(
        nul_terminated(alias),
        vec![0x54, 0x75, 0x6e, 0x6e, 0x65, 0x6c, 0x30, 0]
    );
    assert_eq!(nul_terminated(vec![0xd83d, 0xde00]), vec![0xd83d, 0xde00, 0]);
}
