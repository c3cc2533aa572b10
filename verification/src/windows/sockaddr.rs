//! The native socket address: a 28-byte image whose first two bytes hold the
//! address family, and whose remaining layout depends on that family. The
//! functions of this module are the only ones that read or write the image.
//!
//! | bytes  | IPv4                    | IPv6                     |
//! |--------|-------------------------|--------------------------|
//! | 0..2   | family, little-endian   | family, little-endian    |
//! | 2..4   | port, big-endian        | port, big-endian         |
//! | 4..8   | address                 | flow label, little-endian|
//! | 8..24  | unused, zero            | address                  |
//! | 24..28 | unused, zero            | scope id, little-endian  |

use crate::net::{Ipv4Addr, Ipv6Addr, SocketAddr, SocketAddrV4, SocketAddrV6, SocketAddrView};
use crate::net::{high_octet, lemma_view_injective, low_octet};
use crate::windows::{Error, AF_INET, AF_INET6};
use vstd::prelude::*;

verus! {

/// An IPv4 address in its native form: four bytes in network order.
#[derive(Clone, Copy, Debug, PartialEq, Eq)]
pub struct InAddr {
    pub bytes: [u8; 4],
}

/// An IPv6 address in its native form: sixteen bytes in network order.
#[derive(Clone, Copy, Debug, PartialEq, Eq)]
pub struct In6Addr {
    pub bytes: [u8; 16],
}

/// A socket address of either family in its native form.
#[derive(Clone, Copy, Debug, PartialEq, Eq)]
pub struct SockaddrInet {
    pub bytes: [u8; 28],
}

impl View for InAddr {
    type V = Seq<u8>;

    open spec fn view(&self) -> Seq<u8> {
        self.bytes@
    }
}

impl View for In6Addr {
    type V = Seq<u8>;

    open spec fn view(&self) -> Seq<u8> {
        self.bytes@
    }
}

impl View for SockaddrInet {
    type V = Seq<u8>;

    open spec fn view(&self) -> Seq<u8> {
        self.bytes@
    }
}

/// The two bytes of a 16-bit value, low byte first.
pub open spec fn le16(x: u16) -> Seq<u8> {
    seq![low_octet(x), high_octet(x)]
}

/// The two bytes of a 16-bit value, high byte first.
pub open spec fn be16(x: u16) -> Seq<u8> {
    seq![high_octet(x), low_octet(x)]
}

/// The four bytes of a 32-bit value, lowest byte first.
pub open spec fn le32(x: u32) -> Seq<u8> {
    seq![
        (x % 256) as u8,
        (x / 0x100 % 256) as u8,
        (x / 0x1_0000 % 256) as u8,
        (x / 0x100_0000) as u8,
    ]
}

/// The 16-bit value whose bytes, low byte first, are `bytes`.
pub open spec fn from_le16(bytes: Seq<u8>) -> u16 {
    (bytes[0] + 0x100 * bytes[1]) as u16
}

/// The 16-bit value whose bytes, high byte first, are `bytes`.
pub open spec fn from_be16(bytes: Seq<u8>) -> u16 {
    (0x100 * bytes[0] + bytes[1]) as u16
}

/// The 32-bit value whose bytes, lowest byte first, are `bytes`.
pub open spec fn from_le32(bytes: Seq<u8>) -> u32 {
    (bytes[0] + 0x100 * bytes[1] + 0x1_0000 * bytes[2] + 0x100_0000 * bytes[3]) as u32
}

/// `n` zero bytes.
pub open spec fn zeros(n: nat) -> Seq<u8> {
    Seq::new(n, |i: int| 0u8)
}

/// The native image of a socket address.
pub open spec fn native_image(addr: SocketAddrView) -> Seq<u8> {
    match addr {
        SocketAddrView::V4 { ip, port } => le16(AF_INET) + be16(port) + ip + zeros(20),
        SocketAddrView::V6 { ip, port, flowinfo, scope_id } => le16(AF_INET6) + be16(port) + le32(
            flowinfo,
        ) + ip + le32(scope_id),
    }
}

/// The address family tag of a native image.
pub open spec fn family_tag(image: Seq<u8>) -> u16 {
    from_le16(image.subrange(0, 2))
}

/// The socket address that a native image holds. An image whose family tag
/// is neither that of IPv4 nor that of IPv6 holds none, and the error
/// carries the tag.
pub open spec fn decoded(image: Seq<u8>) -> Result<SocketAddrView, Error> {
    let tag = family_tag(image);
    if tag == AF_INET {
        Ok(SocketAddrView::V4 { ip: image.subrange(4, 8), port: from_be16(image.subrange(2, 4)) })
    } else if tag == AF_INET6 {
        Ok(
            SocketAddrView::V6 {
                ip: image.subrange(8, 24),
                port: from_be16(image.subrange(2, 4)),
                flowinfo: from_le32(image.subrange(4, 8)),
                scope_id: from_le32(image.subrange(24, 28)),
            },
        )
    } else {
        Err(Error::UnknownAddressFamily(tag as i32))
    }
}

impl SockaddrInet {
    /// The address family tag of the image.
    pub fn si_family(&self) -> (tag: u16)
        ensures
            tag == family_tag(self@),
    {
        self.bytes[0] as u16 + 0x100 * (self.bytes[1] as u16)
    }
}

/// Converts an `Ipv4Addr` to its native form. Both hold the address in
/// network order, so the bytes are the octets.
pub fn inaddr_from_ipaddr(addr: Ipv4Addr) -> (in_addr: InAddr)
    ensures
        in_addr@ == addr@,
{
    InAddr { bytes: addr.octets() }
}

/// Converts an `Ipv6Addr` to its native form. Both hold the address in
/// network order, so the bytes are the octets.
pub fn in6addr_from_ipaddr(addr: Ipv6Addr) -> (in_addr: In6Addr)
    ensures
        in_addr@ == addr@,
{
    In6Addr { bytes: addr.octets() }
}

/// Converts a native IPv4 address to an `Ipv4Addr`.
pub fn ipaddr_from_inaddr(addr: InAddr) -> (ip: Ipv4Addr)
    ensures
        ip@ == addr@,
{
    Ipv4Addr { octets: addr.bytes }
}

/// Converts a native IPv6 address to an `Ipv6Addr`.
pub fn ipaddr_from_in6addr(addr: In6Addr) -> (ip: Ipv6Addr)
    ensures
        ip@ == addr@,
{
    Ipv6Addr { octets: addr.bytes }
}

/// Converts a `SocketAddr` to its native form. This always succeeds. The
/// port is written high byte first; the flow label and the scope id of an
/// IPv6 address are carried over as they are.
pub fn inet_sockaddr_from_socketaddr(addr: SocketAddr) -> (sockaddr: SockaddrInet)
    ensures
        sockaddr@ == native_image(addr@),
{
    let mut bytes = [0u8; 28];
    match addr {
        SocketAddr::V4(v4_addr) => {
            let in_addr = inaddr_from_ipaddr(v4_addr.ip);
            bytes[0] = (AF_INET % 256) as u8;
            bytes[1] = (AF_INET / 256) as u8;
            bytes[2] = (v4_addr.port / 256) as u8;
            bytes[3] = (v4_addr.port % 256) as u8;
            bytes[4] = in_addr.bytes[0];
            bytes[5] = in_addr.bytes[1];
            bytes[6] = in_addr.bytes[2];
            bytes[7] = in_addr.bytes[3];
        },
        SocketAddr::V6(v6_addr) => {
            let in_addr = in6addr_from_ipaddr(v6_addr.ip);
            bytes[0] = (AF_INET6 % 256) as u8;
            bytes[1] = (AF_INET6 / 256) as u8;
            bytes[2] = (v6_addr.port / 256) as u8;
            bytes[3] = (v6_addr.port % 256) as u8;
            write_le32(&mut bytes, 4, v6_addr.flowinfo);
            write_le32(&mut bytes, 24, v6_addr.scope_id);
            let mut i: usize = 0;
            while i < 16
                invariant
                    i <= 16,
                    forall|j: int| 0 <= j < 8 || 24 <= j < 28 ==> bytes@[j] == native_image(addr@)[j],
                    forall|j: int| 0 <= j < i ==> bytes@[8 + j] == in_addr@[j],
                    addr == SocketAddr::V6(v6_addr),
                    in_addr@ == v6_addr.ip@,
                decreases 16 - i,
            {
                bytes[8 + i] = in_addr.bytes[i];
                i += 1;
            }
        },
    }
    let sockaddr = SockaddrInet { bytes };
    assert(sockaddr@ =~= native_image(addr@));
    sockaddr
}

/// Writes a 32-bit value at `offset`, lowest byte first.
fn write_le32(bytes: &mut [u8; 28], offset: usize, value: u32)
    requires
        offset + 4 <= 28,
    ensures
        final(bytes)@.subrange(offset as int, offset + 4) == le32(value),
        forall|j: int|
            0 <= j < 28 && !(offset <= j < offset + 4) ==> final(bytes)@[j] == old(bytes)@[j],
{
    bytes[offset] = (value % 256) as u8;
    bytes[offset + 1] = (value / 0x100 % 256) as u8;
    bytes[offset + 2] = (value / 0x1_0000 % 256) as u8;
    bytes[offset + 3] = (value / 0x100_0000) as u8;
    assert(bytes@.subrange(offset as int, offset + 4) =~= le32(value));
}

/// Reads the 32-bit value at `offset`, lowest byte first.
fn read_le32(bytes: &[u8; 28], offset: usize) -> (value: u32)
    requires
        offset + 4 <= 28,
    ensures
        value == from_le32(bytes@.subrange(offset as int, offset + 4)),
{
    bytes[offset] as u32 + 0x100 * (bytes[offset + 1] as u32) + 0x1_0000 * (bytes[offset
        + 2] as u32) + 0x100_0000 * (bytes[offset + 3] as u32)
}

/// Converts a native socket address to a `SocketAddr`. Returns an error if
/// the address family is neither IPv4 nor IPv6; the error carries the tag
/// that was found.
pub fn try_socketaddr_from_inet_sockaddr(addr: SockaddrInet) -> (result: Result<SocketAddr, Error>)
    ensures
        match result {
            Ok(socket_addr) => decoded(addr@) == Ok::<SocketAddrView, Error>(socket_addr@),
            Err(error) => decoded(addr@) == Err::<SocketAddrView, Error>(error),
        },
{
    let family = addr.si_family();
    let b = &addr.bytes;
    if family == AF_INET {
        let port = 0x100 * (b[2] as u16) + b[3] as u16;
        let ip = ipaddr_from_inaddr(InAddr { bytes: [b[4], b[5], b[6], b[7]] });
        assert(ip@ =~= addr@.subrange(4, 8));
        Ok(SocketAddr::V4(SocketAddrV4::new(ip, port)))
    } else if family == AF_INET6 {
        let port = 0x100 * (b[2] as u16) + b[3] as u16;
        let flowinfo = read_le32(b, 4);
        let scope_id = read_le32(b, 24);
        let ip = ipaddr_from_in6addr(
            In6Addr {
                bytes: [
                    b[8],
                    b[9],
                    b[10],
                    b[11],
                    b[12],
                    b[13],
                    b[14],
                    b[15],
                    b[16],
                    b[17],
                    b[18],
                    b[19],
                    b[20],
                    b[21],
                    b[22],
                    b[23],
                ],
            },
        );
        assert(ip@ =~= addr@.subrange(8, 24));
        Ok(SocketAddr::V6(SocketAddrV6::new(ip, port, flowinfo, scope_id)))
    } else {
        Err(Error::UnknownAddressFamily(family as i32))
    }
}

/// The image of an address is 28 bytes long and carries the tag of the
/// address's family.
pub proof fn lemma_image_family(addr: SocketAddrView)
    requires
        addr.wf(),
    ensures
        native_image(addr).len() == 28,
        family_tag(native_image(addr)) == match addr {
            SocketAddrView::V4 { .. } => AF_INET,
            SocketAddrView::V6 { .. } => AF_INET6,
        },
{
}

/// Reading two or four bytes back gives the value that was written, in
/// either byte order.
pub proof fn lemma_bytes_round_trip(x: u16, y: u32)
    ensures
        from_le16(le16(x)) == x,
        from_be16(be16(x)) == x,
        from_le32(le32(y)) == y,
{
}

/// Decoding the image of an IPv4 address gives that address back.
proof fn lemma_round_trip_v4(ip: Seq<u8>, port: u16)
    requires
        ip.len() == 4,
    ensures
        decoded(native_image(SocketAddrView::V4 { ip, port })) == Ok::<SocketAddrView, Error>(
            SocketAddrView::V4 { ip, port },
        ),
{
    let image = native_image(SocketAddrView::V4 { ip, port });
    assert(image.subrange(0, 2) =~= le16(AF_INET));
    assert(image.subrange(2, 4) =~= be16(port));
    assert(image.subrange(4, 8) =~= ip);
    lemma_bytes_round_trip(AF_INET, 0);
    lemma_bytes_round_trip(port, 0);
}

/// Decoding the image of an IPv6 address gives that address back.
proof fn lemma_round_trip_v6(ip: Seq<u8>, port: u16, flowinfo: u32, scope_id: u32)
    requires
        ip.len() == 16,
    ensures
        decoded(native_image(SocketAddrView::V6 { ip, port, flowinfo, scope_id })) == Ok::<
            SocketAddrView,
            Error,
        >(SocketAddrView::V6 { ip, port, flowinfo, scope_id }),
{
    let image = native_image(SocketAddrView::V6 { ip, port, flowinfo, scope_id });
    assert(image.subrange(0, 2) =~= le16(AF_INET6));
    assert(image.subrange(2, 4) =~= be16(port));
    assert(image.subrange(4, 8) =~= le32(flowinfo));
    assert(image.subrange(8, 24) =~= ip);
    assert(image.subrange(24, 28) =~= le32(scope_id));
    lemma_bytes_round_trip(AF_INET6, flowinfo);
    lemma_bytes_round_trip(port, scope_id);
}

/// Decoding the image of an address gives that address back, whatever the
/// address, port, flow label and scope id.
pub proof fn lemma_round_trip(addr: SocketAddrView)
    requires
        addr.wf(),
    ensures
        decoded(native_image(addr)) == Ok::<SocketAddrView, Error>(addr),
{
    match addr {
        SocketAddrView::V4 { ip, port } => lemma_round_trip_v4(ip, port),
        SocketAddrView::V6 { ip, port, flowinfo, scope_id } => lemma_round_trip_v6(
            ip,
            port,
            flowinfo,
            scope_id,
        ),
    }
}

/// Converting a socket address to its native form and back gives the same
/// socket address, and no other.
pub proof fn lemma_round_trip_exact(addr: SocketAddr, back: SocketAddr)
    ensures
        decoded(native_image(addr@)) == Ok::<SocketAddrView, Error>(addr@),
        decoded(native_image(addr@)) == Ok::<SocketAddrView, Error>(back@) ==> back == addr,
{
    lemma_round_trip(addr@);
    if decoded(native_image(addr@)) == Ok::<SocketAddrView, Error>(back@) {
        lemma_view_injective(back, addr);
    }
}

/// An image decodes to an address exactly if its family tag is that of IPv4
/// or of IPv6. Any other tag is refused, and the error carries that tag.
pub proof fn lemma_unknown_family(image: Seq<u8>)
    ensures
        decoded(image) is Ok <==> family_tag(image) == AF_INET || family_tag(image) == AF_INET6,
        decoded(image) is Err ==> decoded(image) == Err::<SocketAddrView, Error>(
            Error::UnknownAddressFamily(family_tag(image) as i32),
        ),
        decoded(image) matches Ok(addr) ==> (addr is V4 <==> family_tag(image) == AF_INET),
{
}

} // verus!
