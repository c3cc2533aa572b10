//! Platform-neutral IP and socket addresses.

use vstd::prelude::*;

verus! {

/// An IPv4 address, held as its four octets in network order.
#[derive(Clone, Copy, Debug, PartialEq, Eq, Hash)]
pub struct Ipv4Addr {
    pub octets: [u8; 4],
}

/// An IPv6 address, held as its sixteen octets in network order.
#[derive(Clone, Copy, Debug, PartialEq, Eq, Hash)]
pub struct Ipv6Addr {
    pub octets: [u8; 16],
}

/// An IPv4 address together with a port.
#[derive(Clone, Copy, Debug, PartialEq, Eq, Hash)]
pub struct SocketAddrV4 {
    pub ip: Ipv4Addr,
    pub port: u16,
}

/// An IPv6 address together with a port, a flow label and a scope id.
#[derive(Clone, Copy, Debug, PartialEq, Eq, Hash)]
pub struct SocketAddrV6 {
    pub ip: Ipv6Addr,
    pub port: u16,
    pub flowinfo: u32,
    pub scope_id: u32,
}

/// A socket address of either family.
#[derive(Clone, Copy, Debug, PartialEq, Eq, Hash)]
pub enum SocketAddr {
    V4(SocketAddrV4),
    V6(SocketAddrV6),
}

/// The mathematical content of a [`SocketAddr`]: the address octets as a
/// sequence, the remaining fields as numbers.
pub enum SocketAddrView {
    V4 { ip: Seq<u8>, port: u16 },
    V6 { ip: Seq<u8>, port: u16, flowinfo: u32, scope_id: u32 },
}

impl SocketAddrView {
    /// The octet sequence has the length its family prescribes.
    pub open spec fn wf(self) -> bool {
        match self {
            SocketAddrView::V4 { ip, .. } => ip.len() == 4,
            SocketAddrView::V6 { ip, .. } => ip.len() == 16,
        }
    }
}

/// The high octet of a 16-bit value.
pub open spec fn high_octet(x: u16) -> u8 {
    (x / 256) as u8
}

/// The low octet of a 16-bit value.
pub open spec fn low_octet(x: u16) -> u8 {
    (x % 256) as u8
}

/// The octets of eight 16-bit segments, each segment high octet first.
pub open spec fn segment_octets(segments: Seq<u16>) -> Seq<u8> {
    Seq::new(2 * segments.len(), |i: int| if i % 2 == 0 {
        high_octet(segments[i / 2])
    } else {
        low_octet(segments[i / 2])
    })
}

impl View for Ipv4Addr {
    type V = Seq<u8>;

    open spec fn view(&self) -> Seq<u8> {
        self.octets@
    }
}

impl View for Ipv6Addr {
    type V = Seq<u8>;

    open spec fn view(&self) -> Seq<u8> {
        self.octets@
    }
}

impl View for SocketAddr {
    type V = SocketAddrView;

    open spec fn view(&self) -> SocketAddrView {
        match *self {
            SocketAddr::V4(a) => SocketAddrView::V4 { ip: a.ip@, port: a.port },
            SocketAddr::V6(a) => SocketAddrView::V6 {
                ip: a.ip@,
                port: a.port,
                flowinfo: a.flowinfo,
                scope_id: a.scope_id,
            },
        }
    }
}

impl Ipv4Addr {
    /// The address `a.b.c.d`.
    pub fn new(a: u8, b: u8, c: u8, d: u8) -> (addr: Ipv4Addr)
        ensures
            addr@ == seq![a, b, c, d],
    {
        let addr = Ipv4Addr { octets: [a, b, c, d] };
        assert(addr@ =~= seq![a, b, c, d]);
        addr
    }

    /// The four octets, first octet first.
    pub fn octets(&self) -> (octets: [u8; 4])
        ensures
            octets@ == self@,
    {
        self.octets
    }
}

impl Ipv6Addr {
    /// The address made of eight 16-bit segments, written as in the usual
    /// colon notation.
    pub fn new(a: u16, b: u16, c: u16, d: u16, e: u16, f: u16, g: u16, h: u16) -> (addr: Ipv6Addr)
        ensures
            addr@ == segment_octets(seq![a, b, c, d, e, f, g, h]),
    {
        let addr = Ipv6Addr {
            octets: [
                (a / 256) as u8,
                (a % 256) as u8,
                (b / 256) as u8,
                (b % 256) as u8,
                (c / 256) as u8,
                (c % 256) as u8,
                (d / 256) as u8,
                (d % 256) as u8,
                (e / 256) as u8,
                (e % 256) as u8,
                (f / 256) as u8,
                (f % 256) as u8,
                (g / 256) as u8,
                (g % 256) as u8,
                (h / 256) as u8,
                (h % 256) as u8,
            ],
        };
        assert(addr@ =~= segment_octets(seq![a, b, c, d, e, f, g, h]));
        addr
    }

    /// The sixteen octets, first octet first.
    pub fn octets(&self) -> (octets: [u8; 16])
        ensures
            octets@ == self@,
    {
        self.octets
    }
}

impl SocketAddrV4 {
    /// The socket address of `ip` and `port`.
    pub fn new(ip: Ipv4Addr, port: u16) -> (addr: SocketAddrV4)
        ensures
            addr.ip == ip,
            addr.port == port,
    {
        SocketAddrV4 { ip, port }
    }
}

impl SocketAddrV6 {
    /// The socket address of `ip` and `port`, with its flow label and scope
    /// id.
    pub fn new(ip: Ipv6Addr, port: u16, flowinfo: u32, scope_id: u32) -> (addr: SocketAddrV6)
        ensures
            addr.ip == ip,
            addr.port == port,
            addr.flowinfo == flowinfo,
            addr.scope_id == scope_id,
    {
        SocketAddrV6 { ip, port, flowinfo, scope_id }
    }
}

impl SocketAddr {
    /// The port, whatever the family.
    pub fn port(&self) -> (port: u16)
        ensures
            port == match self@ {
                SocketAddrView::V4 { port, .. } => port,
                SocketAddrView::V6 { port, .. } => port,
            },
    {
        match self {
            SocketAddr::V4(a) => a.port,
            SocketAddr::V6(a) => a.port,
        }
    }

    /// Whether this is an IPv4 socket address.
    pub fn is_ipv4(&self) -> (r: bool)
        ensures
            r == (self@ is V4),
    {
        match self {
            SocketAddr::V4(_) => true,
            SocketAddr::V6(_) => false,
        }
    }
}

/// Every socket address has a well-formed view.
pub proof fn lemma_view_wf(addr: SocketAddr)
    ensures
        addr@.wf(),
{
}

/// Two socket addresses with the same view are the same address.
pub proof fn lemma_view_injective(a: SocketAddr, b: SocketAddr)
    requires
        a@ == b@,
    ensures
        a == b,
{
    match (a, b) {
        (SocketAddr::V4(x), SocketAddr::V4(y)) => {
            assert(x.ip.octets =~= y.ip.octets);
        },
        (SocketAddr::V6(x), SocketAddr::V6(y)) => {
            assert(x.ip.octets =~= y.ip.octets);
        },
        _ => {},
    }
}

} // verus!
