use vstd::prelude::*;

use crate::platform::Platform;

verus! {

/// Size in bytes of the native IPv4 socket address structure.
pub const SOCKADDR_IN_LEN: usize = 16;

/// Size in bytes of the native IPv6 socket address structure.
pub const SOCKADDR_IN6_LEN: usize = 28;

/// IP protocol domain for sockets.
#[derive(Copy, Clone, Debug, PartialEq, Eq, Structural)]
pub enum Domain {
    /// IPv4 protocol
    Ipv4,
    /// IPv6 protocol
    Ipv6,
}

/// Socket type for protocol communication.
#[derive(Copy, Clone, Debug, PartialEq, Eq, Structural)]
pub enum Type {
    /// TCP stream socket
    Stream,
    /// UDP datagram socket
    Dgram,
}

/// Transport protocol for sockets.
#[derive(Copy, Clone, Debug, PartialEq, Eq, Structural)]
pub enum Protocol {
    /// TCP protocol
    Tcp,
    /// UDP protocol
    Udp,
}

/// An IPv4 socket address: four address octets and a port.
#[derive(Copy, Clone, Debug, PartialEq, Eq)]
pub struct SocketAddrV4 {
    pub ip: [u8; 4],
    pub port: u16,
}

/// An IPv6 socket address: sixteen address octets, a port, flow information
/// and a scope id.
#[derive(Copy, Clone, Debug, PartialEq, Eq)]
pub struct SocketAddrV6 {
    pub ip: [u8; 16],
    pub port: u16,
    pub flowinfo: u32,
    pub scope_id: u32,
}

/// A generic socket address of either family.
#[derive(Copy, Clone, Debug, PartialEq, Eq)]
pub enum SocketAddress {
    V4(SocketAddrV4),
    V6(SocketAddrV6),
}

/// The mathematical value of a generic socket address.
pub enum AddrView {
    V4 { ip: Seq<u8>, port: u16 },
    V6 { ip: Seq<u8>, port: u16, flowinfo: u32, scope_id: u32 },
}

impl AddrView {
    /// The address octets have the length of their family.
    pub open spec fn wf(self) -> bool {
        match self {
            AddrView::V4 { ip, .. } => ip.len() == 4,
            AddrView::V6 { ip, .. } => ip.len() == 16,
        }
    }

    pub open spec fn domain(self) -> Domain {
        match self {
            AddrView::V4 { .. } => Domain::Ipv4,
            AddrView::V6 { .. } => Domain::Ipv6,
        }
    }

    pub open spec fn port(self) -> u16 {
        match self {
            AddrView::V4 { port, .. } => port,
            AddrView::V6 { port, .. } => port,
        }
    }
}

impl View for SocketAddress {
    type V = AddrView;

    open spec fn view(&self) -> AddrView {
        match *self {
            SocketAddress::V4(a) => AddrView::V4 { ip: a.ip@, port: a.port },
            SocketAddress::V6(a) => AddrView::V6 {
                ip: a.ip@,
                port: a.port,
                flowinfo: a.flowinfo,
                scope_id: a.scope_id,
            },
        }
    }
}

impl SocketAddress {
    /// An IPv4 address from its octets and port.
    pub fn v4(ip: [u8; 4], port: u16) -> (r: SocketAddress)
        ensures
            r@ == (AddrView::V4 { ip: ip@, port }),
    {
        SocketAddress::V4(SocketAddrV4 { ip, port })
    }

    /// An IPv6 address from its octets, port, flow information and scope id.
    pub fn v6(ip: [u8; 16], port: u16, flowinfo: u32, scope_id: u32) -> (r: SocketAddress)
        ensures
            r@ == (AddrView::V6 { ip: ip@, port, flowinfo, scope_id }),
    {
        SocketAddress::V6(SocketAddrV6 { ip, port, flowinfo, scope_id })
    }

    /// The IPv6 unspecified address `[::]` at `port`.
    pub fn ipv6_unspecified(port: u16) -> (r: SocketAddress)
        ensures
            r@ == (AddrView::V6 { ip: Seq::new(16, |i: int| 0u8), port, flowinfo: 0, scope_id: 0 }),
    {
        let ip: [u8; 16] = [0u8, 0, 0, 0, 0, 0, 0, 0, 0, 0, 0, 0, 0, 0, 0, 0];
        let r = SocketAddress::V6(SocketAddrV6 { ip, port, flowinfo: 0, scope_id: 0 });
        assert(r@ == (AddrView::V6 { ip: Seq::new(16, |i: int| 0u8), port, flowinfo: 0, scope_id: 0 })) by {
            assert(ip@ =~= Seq::new(16, |i: int| 0u8));
        }
        r
    }

    pub fn domain(&self) -> (r: Domain)
        ensures
            r == self@.domain(),
    {
        match self {
            SocketAddress::V4(_) => Domain::Ipv4,
            SocketAddress::V6(_) => Domain::Ipv6,
        }
    }

    pub fn port(&self) -> (r: u16)
        ensures
            r == self@.port(),
    {
        match self {
            SocketAddress::V4(a) => a.port,
            SocketAddress::V6(a) => a.port,
        }
    }
}

/// Native IPv4 address structure: family tag, port in network byte order and
/// the address octets in network order.
#[derive(Copy, Clone, Debug, PartialEq, Eq)]
pub struct SockAddrIn {
    pub family: u16,
    pub port: [u8; 2],
    pub addr: [u8; 4],
}

/// Native IPv6 address structure.
#[derive(Copy, Clone, Debug, PartialEq, Eq)]
pub struct SockAddrIn6 {
    pub family: u16,
    pub port: [u8; 2],
    pub flowinfo: u32,
    pub addr: [u8; 16],
    pub scope_id: u32,
}

/// Native socket address: a tagged union that mirrors the system structures.
#[derive(Copy, Clone, Debug, PartialEq, Eq)]
pub enum SockAddr {
    /// IPv4 socket address
    V4(SockAddrIn),
    /// IPv6 socket address
    V6(SockAddrIn6),
}

/// The mathematical value of a native socket address.
pub enum SockAddrView {
    V4 { family: u16, port: Seq<u8>, addr: Seq<u8> },
    V6 { family: u16, port: Seq<u8>, flowinfo: u32, addr: Seq<u8>, scope_id: u32 },
}

impl View for SockAddr {
    type V = SockAddrView;

    open spec fn view(&self) -> SockAddrView {
        match *self {
            SockAddr::V4(s) => SockAddrView::V4 { family: s.family, port: s.port@, addr: s.addr@ },
            SockAddr::V6(s) => SockAddrView::V6 {
                family: s.family,
                port: s.port@,
                flowinfo: s.flowinfo,
                addr: s.addr@,
                scope_id: s.scope_id,
            },
        }
    }
}

/// A port as two bytes in network order.
pub open spec fn net_port(p: u16) -> Seq<u8> {
    seq![(p >> 8u16) as u8, p as u8]
}

/// The port held by two bytes in network order.
pub open spec fn port_from_net(hi: u8, lo: u8) -> u16 {
    ((hi as u16) << 8u16) | (lo as u16)
}

/// The native structure for a generic address.
pub open spec fn native_of(a: AddrView, pf: Platform) -> SockAddrView {
    match a {
        AddrView::V4 { ip, port } => SockAddrView::V4 {
            family: pf.af_inet,
            port: net_port(port),
            addr: ip,
        },
        AddrView::V6 { ip, port, flowinfo, scope_id } => SockAddrView::V6 {
            family: pf.af_inet6,
            port: net_port(port),
            flowinfo,
            addr: ip,
            scope_id,
        },
    }
}

/// The generic address that a native structure holds.
pub open spec fn generic_of(s: SockAddrView) -> AddrView {
    match s {
        SockAddrView::V4 { port, addr, .. } => AddrView::V4 {
            ip: addr,
            port: port_from_net(port[0], port[1]),
        },
        SockAddrView::V6 { port, flowinfo, addr, scope_id, .. } => AddrView::V6 {
            ip: addr,
            port: port_from_net(port[0], port[1]),
            flowinfo,
            scope_id,
        },
    }
}

/// Length in bytes of the native structure for a domain.
pub open spec fn native_len(d: Domain) -> u32 {
    match d {
        Domain::Ipv4 => SOCKADDR_IN_LEN as u32,
        Domain::Ipv6 => SOCKADDR_IN6_LEN as u32,
    }
}

fn port_bytes(p: u16) -> (r: [u8; 2])
    ensures
        r@ == net_port(p),
{
    let r = [(p >> 8u16) as u8, p as u8];
    assert(r@ =~= net_port(p));
    r
}

/// Converts a generic address to its native structure, with the domain and the
/// length of that structure. The port goes into network byte order; an IPv6
/// address keeps its flow information and scope id.
pub fn to_sockaddr(addr: &SocketAddress, pf: &Platform) -> (r: (Domain, SockAddr, u32))
    ensures
        r.0 == addr@.domain(),
        r.1@ == native_of(addr@, *pf),
        r.2 == native_len(r.0),
{
    match addr {
        SocketAddress::V4(a) => {
            let s = SockAddrIn { family: pf.af_inet, port: port_bytes(a.port), addr: a.ip };
            (Domain::Ipv4, SockAddr::V4(s), SOCKADDR_IN_LEN as u32)
        },
        SocketAddress::V6(a) => {
            let s = SockAddrIn6 {
                family: pf.af_inet6,
                port: port_bytes(a.port),
                flowinfo: a.flowinfo,
                addr: a.ip,
                scope_id: a.scope_id,
            };
            (Domain::Ipv6, SockAddr::V6(s), SOCKADDR_IN6_LEN as u32)
        },
    }
}

/// Reconstructs the generic address that a native structure holds.
pub fn from_sockaddr(sa: &SockAddr) -> (r: SocketAddress)
    ensures
        r@ == generic_of(sa@),
{
    match sa {
        SockAddr::V4(s) => {
            let port = ((s.port[0] as u16) << 8u16) | (s.port[1] as u16);
            SocketAddress::V4(SocketAddrV4 { ip: s.addr, port })
        },
        SockAddr::V6(s) => {
            let port = ((s.port[0] as u16) << 8u16) | (s.port[1] as u16);
            SocketAddress::V6(
                SocketAddrV6 { ip: s.addr, port, flowinfo: s.flowinfo, scope_id: s.scope_id },
            )
        },
    }
}

proof fn lemma_port_round_trip(p: u16)
    ensures
        port_from_net(net_port(p)[0], net_port(p)[1]) == p,
{
    assert((((((p >> 8u16) as u8) as u16) << 8u16) | ((p as u8) as u16)) == p) by (bit_vector);
}

/// Converting a generic address to its native structure and reconstructing
/// it gives back the same address, port, flow information and scope id.
pub proof fn lemma_native_round_trip(a: AddrView, pf: Platform)
    ensures
        generic_of(native_of(a, pf)) == a,
{
    lemma_port_round_trip(a.port());
}

/// Two bytes of a value stored in host order.
pub open spec fn u16_host(v: u16, le: bool) -> Seq<u8> {
    if le {
        seq![v as u8, (v >> 8u16) as u8]
    } else {
        seq![(v >> 8u16) as u8, v as u8]
    }
}

/// The value that two bytes in host order hold.
pub open spec fn u16_from_host(b0: u8, b1: u8, le: bool) -> u16 {
    if le {
        ((b1 as u16) << 8u16) | (b0 as u16)
    } else {
        ((b0 as u16) << 8u16) | (b1 as u16)
    }
}

/// Four bytes of a value stored in host order.
pub open spec fn u32_host(v: u32, le: bool) -> Seq<u8> {
    if le {
        seq![v as u8, (v >> 8u32) as u8, (v >> 16u32) as u8, (v >> 24u32) as u8]
    } else {
        seq![(v >> 24u32) as u8, (v >> 16u32) as u8, (v >> 8u32) as u8, v as u8]
    }
}

/// The value that four bytes in host order hold.
pub open spec fn u32_from_host(b: Seq<u8>, le: bool) -> u32 {
    if le {
        ((b[3] as u32) << 24u32) | ((b[2] as u32) << 16u32) | ((b[1] as u32) << 8u32) | (
        b[0] as u32)
    } else {
        ((b[0] as u32) << 24u32) | ((b[1] as u32) << 16u32) | ((b[2] as u32) << 8u32) | (
        b[3] as u32)
    }
}

/// The leading bytes of a native structure, which carry the family tag.
pub open spec fn family_header(family: u16, len: u8, pf: Platform) -> Seq<u8> {
    if pf.len_prefixed {
        seq![len, family as u8]
    } else {
        u16_host(family, pf.little_endian)
    }
}

/// The bytes of a native structure as the system lays it out in memory.
pub open spec fn image_of(s: SockAddrView, pf: Platform) -> Seq<u8> {
    match s {
        SockAddrView::V4 { family, port, addr } => family_header(
            family,
            SOCKADDR_IN_LEN as u8,
            pf,
        ) + port + addr + Seq::new(8, |i: int| 0u8),
        SockAddrView::V6 { family, port, flowinfo, addr, scope_id } => family_header(
            family,
            SOCKADDR_IN6_LEN as u8,
            pf,
        ) + port + u32_host(flowinfo, pf.little_endian) + addr + u32_host(
            scope_id,
            pf.little_endian,
        ),
    }
}

/// The family tag at the start of the bytes of a native structure.
pub open spec fn family_in(b: Seq<u8>, pf: Platform) -> u16 {
    if pf.len_prefixed {
        b[1] as u16
    } else {
        u16_from_host(b[0], b[1], pf.little_endian)
    }
}

/// Whether the bytes hold all that the structure named by their family tag
/// holds.
pub open spec fn image_complete(b: Seq<u8>, pf: Platform) -> bool {
    &&& b.len() >= 2
    &&& b.len() >= if family_in(b, pf) == pf.af_inet {
        SOCKADDR_IN_LEN
    } else {
        SOCKADDR_IN6_LEN
    }
}

/// The generic address that the bytes of a native structure hold: the family
/// tag decides the layout, and a tag other than IPv4 is read as IPv6.
pub open spec fn decode_of(b: Seq<u8>, pf: Platform) -> AddrView {
    if family_in(b, pf) == pf.af_inet {
        AddrView::V4 { ip: b.subrange(4, 8), port: port_from_net(b[2], b[3]) }
    } else {
        AddrView::V6 {
            ip: b.subrange(8, 24),
            port: port_from_net(b[2], b[3]),
            flowinfo: u32_from_host(b.subrange(4, 8), pf.little_endian),
            scope_id: u32_from_host(b.subrange(24, 28), pf.little_endian),
        }
    }
}

fn push_u16_host(out: &mut Vec<u8>, v: u16, le: bool)
    ensures
        final(out)@ == old(out)@ + u16_host(v, le),
{
    if le {
        out.push(v as u8);
        out.push((v >> 8u16) as u8);
    } else {
        out.push((v >> 8u16) as u8);
        out.push(v as u8);
    }
    assert(final(out)@ =~= old(out)@ + u16_host(v, le));
}

fn push_u32_host(out: &mut Vec<u8>, v: u32, le: bool)
    ensures
        final(out)@ == old(out)@ + u32_host(v, le),
{
    if le {
        out.push(v as u8);
        out.push((v >> 8u32) as u8);
        out.push((v >> 16u32) as u8);
        out.push((v >> 24u32) as u8);
    } else {
        out.push((v >> 24u32) as u8);
        out.push((v >> 16u32) as u8);
        out.push((v >> 8u32) as u8);
        out.push(v as u8);
    }
    assert(final(out)@ =~= old(out)@ + u32_host(v, le));
}

fn push_bytes(out: &mut Vec<u8>, b: &[u8])
    ensures
        final(out)@ == old(out)@ + b@,
{
    let mut i: usize = 0;
    while i < b.len()
        invariant
            i <= b@.len(),
            out@ == old(out)@ + b@.subrange(0, i as int),
        decreases b@.len() - i,
    {
        out.push(b[i]);
        i = i + 1;
        assert(out@ =~= old(out)@ + b@.subrange(0, i as int));
    }
    assert(b@.subrange(0, i as int) =~= b@);
}

fn push_family_header(out: &mut Vec<u8>, family: u16, len: u8, pf: &Platform)
    ensures
        final(out)@ == old(out)@ + family_header(family, len, *pf),
{
    if pf.len_prefixed {
        out.push(len);
        out.push(family as u8);
        assert(final(out)@ =~= old(out)@ + family_header(family, len, *pf));
    } else {
        push_u16_host(out, family, pf.little_endian);
    }
}

/// The bytes of a native structure as the system lays it out in memory, ready
/// to be handed to a native call.
pub fn sockaddr_image(sa: &SockAddr, pf: &Platform) -> (r: Vec<u8>)
    ensures
        r@ == image_of(sa@, *pf),
{
    let mut out: Vec<u8> = Vec::new();
    match sa {
        SockAddr::V4(s) => {
            push_family_header(&mut out, s.family, SOCKADDR_IN_LEN as u8, pf);
            push_bytes(&mut out, s.port.as_slice());
            push_bytes(&mut out, s.addr.as_slice());
            let zero: [u8; 8] = [0u8, 0, 0, 0, 0, 0, 0, 0];
            push_bytes(&mut out, zero.as_slice());
            assert(zero@ =~= Seq::new(8, |i: int| 0u8));
        },
        SockAddr::V6(s) => {
            push_family_header(&mut out, s.family, SOCKADDR_IN6_LEN as u8, pf);
            push_bytes(&mut out, s.port.as_slice());
            push_u32_host(&mut out, s.flowinfo, pf.little_endian);
            push_bytes(&mut out, s.addr.as_slice());
            push_u32_host(&mut out, s.scope_id, pf.little_endian);
        },
    }
    assert(out@ =~= image_of(sa@, *pf));
    out
}

fn read_u32_host(b: &[u8], at: usize, le: bool) -> (r: u32)
    requires
        at + 4 <= b@.len(),
    ensures
        r == u32_from_host(b@.subrange(at as int, at + 4), le),
{
    let b0 = b[at] as u32;
    let b1 = b[at + 1] as u32;
    let b2 = b[at + 2] as u32;
    let b3 = b[at + 3] as u32;
    if le {
        (b3 << 24u32) | (b2 << 16u32) | (b1 << 8u32) | b0
    } else {
        (b0 << 24u32) | (b1 << 16u32) | (b2 << 8u32) | b3
    }
}

fn read_family(b: &[u8], pf: &Platform) -> (r: u16)
    requires
        b@.len() >= 2,
    ensures
        r == family_in(b@, *pf),
{
    if pf.len_prefixed {
        b[1] as u16
    } else if pf.little_endian {
        ((b[1] as u16) << 8u16) | (b[0] as u16)
    } else {
        ((b[0] as u16) << 8u16) | (b[1] as u16)
    }
}

/// Reconstructs the generic address held by the bytes of a native structure,
/// as the system wrote them, dispatching on the family tag.
pub fn decode_sockaddr(b: &[u8], pf: &Platform) -> (r: SocketAddress)
    requires
        image_complete(b@, *pf),
    ensures
        r@ == decode_of(b@, *pf),
{
    let family = read_family(b, pf);
    let port = ((b[2] as u16) << 8u16) | (b[3] as u16);
    if family == pf.af_inet {
        let ip: [u8; 4] = [b[4], b[5], b[6], b[7]];
        assert(ip@ =~= b@.subrange(4, 8));
        SocketAddress::V4(SocketAddrV4 { ip, port })
    } else {
        let flowinfo = read_u32_host(b, 4, pf.little_endian);
        let scope_id = read_u32_host(b, 24, pf.little_endian);
        let ip: [u8; 16] = [
            b[8],
            b[9],
            b[10],
            b[11],
            b[12],
            b[13],
            b[14],
            b[15],
            b[16],
            b[17],
            b[18],
            b[19],
            b[20],
            b[21],
            b[22],
            b[23],
        ];
        assert(ip@ =~= b@.subrange(8, 24));
        SocketAddress::V6(SocketAddrV6 { ip, port, flowinfo, scope_id })
    }
}

proof fn lemma_u16_host_round_trip(v: u16, le: bool)
    ensures
        u16_from_host(u16_host(v, le)[0], u16_host(v, le)[1], le) == v,
{
    assert((((((v >> 8u16) as u8) as u16) << 8u16) | ((v as u8) as u16)) == v) by (bit_vector);
}

proof fn lemma_u32_host_round_trip(v: u32, le: bool)
    ensures
        u32_from_host(u32_host(v, le), le) == v,
{
    assert(((((v >> 24u32) as u8) as u32) << 24u32) | ((((v >> 16u32) as u8) as u32) << 16u32)
        | ((((v >> 8u32) as u8) as u32) << 8u32) | ((v as u8) as u32) == v) by (bit_vector);
}

/// Laying a generic address out as the bytes of its native structure and
/// decoding those bytes gives back the same address, port, flow information
/// and scope id, on every platform description that is well formed.
pub proof fn lemma_image_round_trip(a: AddrView, pf: Platform)
    requires
        a.wf(),
        pf.wf(),
    ensures
        image_complete(image_of(native_of(a, pf), pf), pf),
        decode_of(image_of(native_of(a, pf), pf), pf) == a,
{
    let s = native_of(a, pf);
    let b = image_of(s, pf);
    lemma_port_round_trip(a.port());
    match a {
        AddrView::V4 { ip, port } => {
            let fam = pf.af_inet;
            if !pf.len_prefixed {
                lemma_u16_host_round_trip(fam, pf.little_endian);
            }
            assert(family_in(b, pf) == fam);
            assert(b.subrange(4, 8) =~= ip);
        },
        AddrView::V6 { ip, port, flowinfo, scope_id } => {
            let fam = pf.af_inet6;
            if !pf.len_prefixed {
                lemma_u16_host_round_trip(fam, pf.little_endian);
            }
            assert(family_in(b, pf) == fam);
            lemma_u32_host_round_trip(flowinfo, pf.little_endian);
            lemma_u32_host_round_trip(scope_id, pf.little_endian);
            assert(b.subrange(4, 8) =~= u32_host(flowinfo, pf.little_endian));
            assert(b.subrange(8, 24) =~= ip);
            assert(b.subrange(24, 28) =~= u32_host(scope_id, pf.little_endian));
        },
    }
}

} // verus!
