//! Probe datagrams: complete IPv4 / IPv6 packets around a UDP datagram or an
//! ICMP Echo Request, with the TTL (hop limit) set for one hop.
use vstd::prelude::*;

use crate::addr::IpAddress;
use crate::config::{TraceRoute, TraceRouteProtocol};

verus! {

/// IANA protocol numbers.
pub const PROTO_ICMP: u8 = 1;
pub const PROTO_UDP: u8 = 17;
pub const PROTO_ICMPV6: u8 = 58;
/// ICMP and ICMPv6 Echo Request types.
pub const ICMP_ECHO_REQUEST: u8 = 8;
pub const ICMPV6_ECHO_REQUEST: u8 = 128;
/// Flags and fragment offset of every IPv4 probe: Don't Fragment, offset 0.
pub const DONT_FRAGMENT: u16 = 16384;
/// Length of an ICMP probe message.
pub const ICMP_PROBE_LEN: usize = 64;
pub const IPV4_HEADER_LEN: usize = 20;
pub const IPV6_HEADER_LEN: usize = 40;
pub const UDP_HEADER_LEN: usize = 8;
/// A UDP header plus four payload bytes.
pub const MIN_UDP_SIZE: u16 = 12;

/// What the Internet checksum (RFC 1071) of `data` is, the 16-bit word at
/// index `skipword` left out.
pub uninterp spec fn internet_checksum(data: Seq<u8>, skipword: nat) -> u16;

/// What the checksum of `data` is under the IPv4 pseudo-header made of
/// `src`, `dst` and protocol `proto`, the word at `skipword` left out.
pub uninterp spec fn ipv4_pseudo_checksum(
    data: Seq<u8>,
    skipword: nat,
    src: u32,
    dst: u32,
    proto: u8,
) -> u16;

/// What the checksum of `data` is under the IPv6 pseudo-header made of
/// `src`, `dst` and next header `proto`, the word at `skipword` left out.
pub uninterp spec fn ipv6_pseudo_checksum(
    data: Seq<u8>,
    skipword: nat,
    src: u128,
    dst: u128,
    proto: u8,
) -> u16;

/// Relies on pnet::util::checksum: the ones-complement sum of the 16-bit
/// big-endian words of `data`, word `skipword` left out, is a function of
/// its arguments. Its 32-bit sum cannot overflow for data of at most 65535
/// bytes.
#[verifier::external_body]
fn checksum(data: &[u8], skipword: usize) -> (r: u16)
    requires
        data@.len() <= 65535,
    ensures
        r == internet_checksum(data@, skipword as nat),
{
    pnet::util::checksum(data, skipword)
}

/// Relies on pnet::util::ipv4_checksum (no extra data): the checksum over
/// the IPv4 pseudo-header and `data` is a function of its arguments. Its
/// 32-bit sum cannot overflow for data of at most 65535 bytes.
#[verifier::external_body]
fn ipv4_checksum(data: &[u8], skipword: usize, src: u32, dst: u32, proto: u8) -> (r: u16)
    requires
        data@.len() <= 65535,
    ensures
        r == ipv4_pseudo_checksum(data@, skipword as nat, src, dst, proto),
{
    pnet::util::ipv4_checksum(
        data,
        skipword,
        &[],
        &src.into(),
        &dst.into(),
        pnet::packet::ip::IpNextHeaderProtocol::new(proto),
    )
}

/// Relies on pnet::util::ipv6_checksum (no extra data): the checksum over
/// the IPv6 pseudo-header and `data` is a function of its arguments. Its
/// 32-bit sum cannot overflow for data of at most 65535 bytes.
#[verifier::external_body]
fn ipv6_checksum(data: &[u8], skipword: usize, src: u128, dst: u128, proto: u8) -> (r: u16)
    requires
        data@.len() <= 65535,
    ensures
        r == ipv6_pseudo_checksum(data@, skipword as nat, src, dst, proto),
{
    pnet::util::ipv6_checksum(
        data,
        skipword,
        &[],
        &src.into(),
        &dst.into(),
        pnet::packet::ip::IpNextHeaderProtocol::new(proto),
    )
}

/// Relies on rand::random: some 16-bit value; nothing is known of which.
#[verifier::external_body]
fn random_u16() -> (r: u16) {
    rand::random::<u16>()
}

/// The identifiers a probe carries.
#[derive(Clone, Copy, Debug, PartialEq, Eq, Structural)]
pub struct ProbeIds {
    pub source_port: u16,
    pub ip_id: u16,
    pub icmp_id: u16,
    pub icmp_seq: u16,
}

impl ProbeIds {
    /// Fresh random identifiers.
    pub fn draw() -> (r: ProbeIds) {
        let source_port = random_u16();
        let ip_id = random_u16();
        let icmp_id = random_u16();
        let icmp_seq = random_u16();
        ProbeIds { source_port, ip_id, icmp_id, icmp_seq }
    }
}

/// `v` in network byte order.
pub open spec fn be16(v: u16) -> Seq<u8> {
    seq![(v / 256) as u8, (v % 256) as u8]
}

/// `v` in network byte order.
pub open spec fn be32(v: u32) -> Seq<u8> {
    seq![
        (v / 0x1000000) as u8,
        ((v / 0x10000) % 256) as u8,
        ((v / 0x100) % 256) as u8,
        (v % 256) as u8,
    ]
}

/// Byte `k` of `v` in network byte order.
pub open spec fn byte128(v: u128, k: int) -> u8 {
    ((v >> ((120 - 8 * k) as u128)) & 0xff) as u8
}

/// `v` in network byte order.
pub open spec fn be128(v: u128) -> Seq<u8> {
    Seq::new(16, |k: int| byte128(v, k))
}

/// `n` zero bytes.
pub open spec fn zeros(n: nat) -> Seq<u8> {
    Seq::new(n, |i: int| 0u8)
}

/// The 16-bit big-endian value at `off`.
pub open spec fn read16(s: Seq<u8>, off: int) -> int {
    s[off] * 256 + s[off + 1]
}

/// The UDP destination port of the probe with this TTL (modulo 2^16).
pub open spec fn probe_port(port: u16, ttl: u8) -> u16 {
    ((port + ttl) % 65536) as u16
}

/// An IPv4 header without options.
pub open spec fn ipv4_header(
    total_len: u16,
    id: u16,
    ttl: u8,
    proto: u8,
    csum: u16,
    src: u32,
    dst: u32,
) -> Seq<u8> {
    seq![0x45u8, 0u8] + be16(total_len) + be16(id) + be16(DONT_FRAGMENT) + seq![ttl, proto]
        + be16(csum) + be32(src) + be32(dst)
}

/// An IPv6 header: no traffic class, no flow label.
pub open spec fn ipv6_header(payload_len: u16, next: u8, hop_limit: u8, src: u128, dst: u128) -> Seq<
    u8,
> {
    seq![0x60u8, 0u8, 0u8, 0u8] + be16(payload_len) + seq![next, hop_limit] + be128(src) + be128(
        dst,
    )
}

/// A UDP datagram of `len` bytes with a zero payload.
pub open spec fn udp_datagram(sport: u16, dport: u16, len: u16, csum: u16) -> Seq<u8> {
    be16(sport) + be16(dport) + be16(len) + be16(csum) + zeros((len - 8) as nat)
}

/// An Echo Request of `ICMP_PROBE_LEN` bytes with a zero payload.
pub open spec fn echo_request(icmp_type: u8, csum: u16, id: u16, seq: u16) -> Seq<u8> {
    seq![icmp_type, 0u8] + be16(csum) + be16(id) + be16(seq) + zeros(56)
}

/// The IPv4 datagram whose checksum is filled in, around `payload`.
pub open spec fn ipv4_packet(ttl: u8, proto: u8, id: u16, src: u32, dst: u32, payload: Seq<u8>) -> Seq<
    u8,
> {
    let len = (20 + payload.len()) as u16;
    ipv4_header(
        len,
        id,
        ttl,
        proto,
        internet_checksum(ipv4_header(len, id, ttl, proto, 0, src, dst), 5),
        src,
        dst,
    ) + payload
}

/// The UDP probe datagram over IPv4.
pub open spec fn udp_v4_probe(src: u32, dst: u32, size: u16, port: u16, ttl: u8, ids: ProbeIds) -> Seq<
    u8,
> {
    let dport = probe_port(port, ttl);
    let csum = ipv4_pseudo_checksum(
        udp_datagram(ids.source_port, dport, size, 0),
        3,
        src,
        dst,
        PROTO_UDP,
    );
    ipv4_packet(ttl, PROTO_UDP, ids.ip_id, src, dst, udp_datagram(ids.source_port, dport, size, csum))
}

/// The ICMP probe datagram over IPv4.
pub open spec fn icmp_v4_probe(src: u32, dst: u32, ttl: u8, ids: ProbeIds) -> Seq<u8> {
    let csum = internet_checksum(
        echo_request(ICMP_ECHO_REQUEST, 0, ids.icmp_id, ids.icmp_seq),
        1,
    );
    ipv4_packet(
        ttl,
        PROTO_ICMP,
        ids.ip_id,
        src,
        dst,
        echo_request(ICMP_ECHO_REQUEST, csum, ids.icmp_id, ids.icmp_seq),
    )
}

/// The UDP probe datagram over IPv6.
pub open spec fn udp_v6_probe(src: u128, dst: u128, size: u16, port: u16, ttl: u8, ids: ProbeIds) -> Seq<
    u8,
> {
    let dport = probe_port(port, ttl);
    let csum = ipv6_pseudo_checksum(
        udp_datagram(ids.source_port, dport, size, 0),
        3,
        src,
        dst,
        PROTO_UDP,
    );
    ipv6_header(size, PROTO_UDP, ttl, src, dst) + udp_datagram(ids.source_port, dport, size, csum)
}

/// The ICMPv6 probe datagram.
pub open spec fn icmp_v6_probe(src: u128, dst: u128, ttl: u8, ids: ProbeIds) -> Seq<u8> {
    let csum = ipv6_pseudo_checksum(
        echo_request(ICMPV6_ECHO_REQUEST, 0, ids.icmp_id, ids.icmp_seq),
        1,
        src,
        dst,
        PROTO_ICMPV6,
    );
    ipv6_header(64, PROTO_ICMPV6, ttl, src, dst) + echo_request(
        ICMPV6_ECHO_REQUEST,
        csum,
        ids.icmp_id,
        ids.icmp_seq,
    )
}

fn push16(buf: &mut Vec<u8>, v: u16)
    ensures
        final(buf)@ == old(buf)@ + be16(v),
{
    buf.push((v / 256) as u8);
    buf.push((v % 256) as u8);
    assert(final(buf)@ =~= old(buf)@ + be16(v));
}

fn push32(buf: &mut Vec<u8>, v: u32)
    ensures
        final(buf)@ == old(buf)@ + be32(v),
{
    buf.push((v / 0x1000000) as u8);
    buf.push(((v / 0x10000) % 256) as u8);
    buf.push(((v / 0x100) % 256) as u8);
    buf.push((v % 256) as u8);
    assert(final(buf)@ =~= old(buf)@ + be32(v));
}

fn push128(buf: &mut Vec<u8>, v: u128)
    ensures
        final(buf)@ == old(buf)@ + be128(v),
{
    let ghost start = buf@;
    let mut k: u128 = 0;
    while k < 16
        invariant
            0 <= k <= 16,
            buf@ =~= start + be128(v).subrange(0, k as int),
        decreases 16 - k,
    {
        buf.push(((v >> (120 - 8 * k)) & 0xff) as u8);
        k = k + 1;
        assert(buf@ =~= start + be128(v).subrange(0, k as int));
    }
    assert(be128(v).subrange(0, 16) =~= be128(v));
}

fn push_zeros(buf: &mut Vec<u8>, n: usize)
    ensures
        final(buf)@ == old(buf)@ + zeros(n as nat),
{
    let ghost start = buf@;
    let mut k: usize = 0;
    while k < n
        invariant
            0 <= k <= n,
            buf@ =~= start + zeros(k as nat),
        decreases n - k,
    {
        buf.push(0u8);
        k = k + 1;
        assert(buf@ =~= start + zeros(k as nat));
    }
}

fn ipv4_header_bytes(
    total_len: u16,
    id: u16,
    ttl: u8,
    proto: u8,
    csum: u16,
    src: u32,
    dst: u32,
) -> (r: Vec<u8>)
    ensures
        r@ == ipv4_header(total_len, id, ttl, proto, csum, src, dst),
{
    let mut b: Vec<u8> = Vec::new();
    b.push(0x45u8);
    b.push(0u8);
    push16(&mut b, total_len);
    push16(&mut b, id);
    push16(&mut b, DONT_FRAGMENT);
    b.push(ttl);
    b.push(proto);
    push16(&mut b, csum);
    push32(&mut b, src);
    push32(&mut b, dst);
    assert(b@ =~= ipv4_header(total_len, id, ttl, proto, csum, src, dst));
    b
}

fn ipv6_header_bytes(payload_len: u16, next: u8, hop_limit: u8, src: u128, dst: u128) -> (r: Vec<
    u8,
>)
    ensures
        r@ == ipv6_header(payload_len, next, hop_limit, src, dst),
{
    let mut b: Vec<u8> = Vec::new();
    b.push(0x60u8);
    b.push(0u8);
    b.push(0u8);
    b.push(0u8);
    push16(&mut b, payload_len);
    b.push(next);
    b.push(hop_limit);
    push128(&mut b, src);
    push128(&mut b, dst);
    assert(b@ =~= ipv6_header(payload_len, next, hop_limit, src, dst));
    b
}

fn udp_bytes(sport: u16, dport: u16, len: u16, csum: u16) -> (r: Vec<u8>)
    requires
        len >= 8,
    ensures
        r@ == udp_datagram(sport, dport, len, csum),
{
    let mut b: Vec<u8> = Vec::new();
    push16(&mut b, sport);
    push16(&mut b, dport);
    push16(&mut b, len);
    push16(&mut b, csum);
    push_zeros(&mut b, (len - 8) as usize);
    assert(b@ =~= udp_datagram(sport, dport, len, csum));
    b
}

fn echo_bytes(icmp_type: u8, csum: u16, id: u16, seq: u16) -> (r: Vec<u8>)
    ensures
        r@ == echo_request(icmp_type, csum, id, seq),
        r@.len() == ICMP_PROBE_LEN,
{
    let mut b: Vec<u8> = Vec::new();
    b.push(icmp_type);
    b.push(0u8);
    push16(&mut b, csum);
    push16(&mut b, id);
    push16(&mut b, seq);
    push_zeros(&mut b, 56);
    assert(b@ =~= echo_request(icmp_type, csum, id, seq));
    b
}

/// Puts an IPv4 header, its checksum filled in, in front of `payload`.
fn ipv4_wrap(ttl: u8, proto: u8, id: u16, src: u32, dst: u32, payload: Vec<u8>) -> (r: Vec<u8>)
    requires
        payload@.len() + IPV4_HEADER_LEN <= 65535,
    ensures
        r@ == ipv4_packet(ttl, proto, id, src, dst, payload@),
{
    let mut payload = payload;
    let len = (IPV4_HEADER_LEN + payload.len()) as u16;
    let blank = ipv4_header_bytes(len, id, ttl, proto, 0, src, dst);
    let csum = checksum(blank.as_slice(), 5);
    let mut b = ipv4_header_bytes(len, id, ttl, proto, csum, src, dst);
    b.append(&mut payload);
    b
}

/// The destination port of the UDP probe with this TTL.
pub fn probe_port_of(port: u16, ttl: u8) -> (r: u16)
    ensures
        r == probe_port(port, ttl),
{
    ((port as u32 + ttl as u32) % 65536) as u16
}

/// The UDP probe over IPv4: `size` bytes of UDP datagram from a random
/// source port to `port + ttl`, checksummed under the IPv4 pseudo-header.
pub fn build_udp_v4(src: u32, dst: u32, size: u16, port: u16, ttl: u8, ids: ProbeIds) -> (r: Vec<u8>)
    requires
        MIN_UDP_SIZE <= size <= 65535 - IPV4_HEADER_LEN,
    ensures
        r@ == udp_v4_probe(src, dst, size, port, ttl, ids),
        r@.len() == IPV4_HEADER_LEN + size,
{
    let dport = probe_port_of(port, ttl);
    let blank = udp_bytes(ids.source_port, dport, size, 0);
    let csum = ipv4_checksum(blank.as_slice(), 3, src, dst, PROTO_UDP);
    let udp = udp_bytes(ids.source_port, dport, size, csum);
    ipv4_wrap(ttl, PROTO_UDP, ids.ip_id, src, dst, udp)
}

/// The ICMP probe over IPv4: an Echo Request of `ICMP_PROBE_LEN` bytes.
pub fn build_icmp_v4(src: u32, dst: u32, ttl: u8, ids: ProbeIds) -> (r: Vec<u8>)
    ensures
        r@ == icmp_v4_probe(src, dst, ttl, ids),
        r@.len() == IPV4_HEADER_LEN + ICMP_PROBE_LEN,
{
    let blank = echo_bytes(ICMP_ECHO_REQUEST, 0, ids.icmp_id, ids.icmp_seq);
    let csum = checksum(blank.as_slice(), 1);
    let echo = echo_bytes(ICMP_ECHO_REQUEST, csum, ids.icmp_id, ids.icmp_seq);
    ipv4_wrap(ttl, PROTO_ICMP, ids.ip_id, src, dst, echo)
}

/// The UDP probe over IPv6, checksummed under the IPv6 pseudo-header.
pub fn build_udp_v6(src: u128, dst: u128, size: u16, port: u16, ttl: u8, ids: ProbeIds) -> (r: Vec<
    u8,
>)
    requires
        MIN_UDP_SIZE <= size,
    ensures
        r@ == udp_v6_probe(src, dst, size, port, ttl, ids),
        r@.len() == IPV6_HEADER_LEN + size,
{
    let dport = probe_port_of(port, ttl);
    let blank = udp_bytes(ids.source_port, dport, size, 0);
    let csum = ipv6_checksum(blank.as_slice(), 3, src, dst, PROTO_UDP);
    let mut udp = udp_bytes(ids.source_port, dport, size, csum);
    let mut b = ipv6_header_bytes(size, PROTO_UDP, ttl, src, dst);
    b.append(&mut udp);
    b
}

/// The ICMPv6 probe: an Echo Request of `ICMP_PROBE_LEN` bytes.
pub fn build_icmp_v6(src: u128, dst: u128, ttl: u8, ids: ProbeIds) -> (r: Vec<u8>)
    ensures
        r@ == icmp_v6_probe(src, dst, ttl, ids),
        r@.len() == IPV6_HEADER_LEN + ICMP_PROBE_LEN,
{
    let blank = echo_bytes(ICMPV6_ECHO_REQUEST, 0, ids.icmp_id, ids.icmp_seq);
    let csum = ipv6_checksum(blank.as_slice(), 1, src, dst, PROTO_ICMPV6);
    let mut echo = echo_bytes(ICMPV6_ECHO_REQUEST, csum, ids.icmp_id, ids.icmp_seq);
    let mut b = ipv6_header_bytes(64, PROTO_ICMPV6, ttl, src, dst);
    b.append(&mut echo);
    b
}

/// Whether a probe can be built for this configuration from this local
/// address: the families agree and a UDP probe fits the length fields.
pub open spec fn probe_fits(c: TraceRoute, local: IpAddress) -> bool {
    match (c.address, local) {
        (IpAddress::V4(_), IpAddress::V4(_)) => c.protocol == TraceRouteProtocol::Icmp || (
        MIN_UDP_SIZE <= c.size <= 65535 - IPV4_HEADER_LEN),
        (IpAddress::V6(_), IpAddress::V6(_)) => c.protocol == TraceRouteProtocol::Icmp || (
        MIN_UDP_SIZE <= c.size <= 65535),
        _ => false,
    }
}

/// The probe for TTL `ttl`, where `probe_fits` holds.
pub open spec fn probe_bytes(c: TraceRoute, local: IpAddress, ttl: u8, ids: ProbeIds) -> Seq<u8> {
    match (c.address, local) {
        (IpAddress::V4(dst), IpAddress::V4(src)) => if c.protocol == TraceRouteProtocol::Icmp {
            icmp_v4_probe(src, dst, ttl, ids)
        } else {
            udp_v4_probe(src, dst, c.size as u16, c.port, ttl, ids)
        },
        (IpAddress::V6(dst), IpAddress::V6(src)) => if c.protocol == TraceRouteProtocol::Icmp {
            icmp_v6_probe(src, dst, ttl, ids)
        } else {
            udp_v6_probe(src, dst, c.size as u16, c.port, ttl, ids)
        },
        _ => Seq::empty(),
    }
}

/// Builds the probe that a trace with configuration `c` sends at `ttl`
/// from the local address `local`; `None` where `probe_fits` fails.
pub fn build_probe(c: &TraceRoute, local: IpAddress, ttl: u8, ids: ProbeIds) -> (r: Option<Vec<u8>>)
    ensures
        r is Some <==> probe_fits(*c, local),
        r is Some ==> r->0@ == probe_bytes(*c, local, ttl, ids),
{
    let icmp = match c.protocol {
        TraceRouteProtocol::Icmp => true,
        TraceRouteProtocol::Udp => false,
    };
    match (c.address, local) {
        (IpAddress::V4(dst), IpAddress::V4(src)) => {
            if icmp {
                Some(build_icmp_v4(src, dst, ttl, ids))
            } else if MIN_UDP_SIZE as usize <= c.size && c.size <= 65535 - IPV4_HEADER_LEN {
                Some(build_udp_v4(src, dst, c.size as u16, c.port, ttl, ids))
            } else {
                None
            }
        },
        (IpAddress::V6(dst), IpAddress::V6(src)) => {
            if icmp {
                Some(build_icmp_v6(src, dst, ttl, ids))
            } else if MIN_UDP_SIZE as usize <= c.size && c.size <= 65535 {
                Some(build_udp_v6(src, dst, c.size as u16, c.port, ttl, ids))
            } else {
                None
            }
        },
        _ => None,
    }
}

/// A network interface as the operating system lists it.
#[derive(Clone, Debug)]
pub struct Interface {
    pub is_up: bool,
    pub is_loopback: bool,
    pub ips: Vec<IpAddress>,
}

/// Whether address `j` of interface `i` may source probes of family `v4`.
pub open spec fn usable_at(ifaces: Seq<Interface>, v4: bool, i: int, j: int) -> bool {
    &&& 0 <= i < ifaces.len()
    &&& 0 <= j < ifaces[i].ips@.len()
    &&& ifaces[i].is_up && !ifaces[i].is_loopback
    &&& (ifaces[i].ips@[j] is V4) == v4
}

/// The first address of family `v4` (IPv4 when set, else IPv6) on an
/// interface that is up and not a loopback, in the order listed.
pub fn get_ip_addr(ifaces: &Vec<Interface>, v4: bool) -> (r: Option<IpAddress>)
    ensures
        r is None <==> forall|i: int, j: int| !usable_at(ifaces@, v4, i, j),
        r is Some ==> exists|i: int, j: int|
            usable_at(ifaces@, v4, i, j) && ifaces@[i].ips@[j] == r->0 && forall|i2: int, j2: int|
                (i2 < i || (i2 == i && j2 < j)) ==> !usable_at(ifaces@, v4, i2, j2),
{
    let mut i: usize = 0;
    while i < ifaces.len()
        invariant
            0 <= i <= ifaces@.len(),
            forall|i2: int, j2: int| i2 < i ==> !usable_at(ifaces@, v4, i2, j2),
        decreases ifaces.len() - i,
    {
        let iface = &ifaces[i];
        if iface.is_up && !iface.is_loopback {
            let mut j: usize = 0;
            while j < iface.ips.len()
                invariant
                    0 <= i < ifaces@.len(),
                    *iface == ifaces@[i as int],
                    iface.is_up && !iface.is_loopback,
                    0 <= j <= iface.ips@.len(),
                    forall|i2: int, j2: int| i2 < i ==> !usable_at(ifaces@, v4, i2, j2),
                    forall|j2: int| j2 < j ==> !usable_at(ifaces@, v4, i as int, j2),
                decreases iface.ips.len() - j,
            {
                let ip = iface.ips[j];
                if ip.is_ipv4() == v4 {
                    assert(usable_at(ifaces@, v4, i as int, j as int));
                    return Some(ip);
                }
                j = j + 1;
            }
        }
        i = i + 1;
    }
    None
}

/// Length of the IP header of a probe of this configuration.
pub open spec fn header_len(c: TraceRoute) -> int {
    if c.address is V4 {
        IPV4_HEADER_LEN as int
    } else {
        IPV6_HEADER_LEN as int
    }
}

/// Offset of the TTL (IPv4) or hop limit (IPv6) field.
pub open spec fn ttl_offset(c: TraceRoute) -> int {
    if c.address is V4 {
        8
    } else {
        7
    }
}

proof fn lemma_be16_read(v: u16, s: Seq<u8>, off: int)
    requires
        0 <= off && off + 1 < s.len(),
        s[off] == be16(v)[0],
        s[off + 1] == be16(v)[1],
    ensures
        read16(s, off) == v,
{
}

proof fn lemma_udp_fields(sport: u16, dport: u16, len: u16, csum: u16)
    requires
        len >= 8,
    ensures
        udp_datagram(sport, dport, len, csum).len() == len,
        read16(udp_datagram(sport, dport, len, csum), 2) == dport,
        read16(udp_datagram(sport, dport, len, csum), 4) == len,
        forall|k: int| 8 <= k < len ==> udp_datagram(sport, dport, len, csum)[k] == 0,
{
    let u = udp_datagram(sport, dport, len, csum);
    lemma_be16_read(dport, u, 2);
    lemma_be16_read(len, u, 4);
}

proof fn lemma_ipv4_packet_fields(ttl: u8, proto: u8, id: u16, src: u32, dst: u32, payload: Seq<u8>)
    ensures
        ipv4_packet(ttl, proto, id, src, dst, payload).len() == 20 + payload.len(),
        ipv4_packet(ttl, proto, id, src, dst, payload)[8] == ttl,
        forall|k: int|
            0 <= k < payload.len() ==> ipv4_packet(ttl, proto, id, src, dst, payload)[20 + k]
                == payload[k],
{
}

proof fn lemma_ipv6_packet_fields(len: u16, next: u8, ttl: u8, src: u128, dst: u128, payload: Seq<u8>)
    ensures
        (ipv6_header(len, next, ttl, src, dst) + payload).len() == 40 + payload.len(),
        (ipv6_header(len, next, ttl, src, dst) + payload)[7] == ttl,
        forall|k: int|
            0 <= k < payload.len() ==> (ipv6_header(len, next, ttl, src, dst) + payload)[40 + k]
                == payload[k],
{
}

/// Decoding a probe gives back what it was built from: the TTL field holds
/// the TTL; a UDP probe is addressed to `port + ttl`, has length `size` and
/// a zero payload; an ICMP probe is an Echo Request.
pub proof fn lemma_probe_fields(c: TraceRoute, local: IpAddress, ttl: u8, ids: ProbeIds)
    requires
        probe_fits(c, local),
    ensures
        probe_bytes(c, local, ttl, ids)[ttl_offset(c)] == ttl,
        c.protocol == TraceRouteProtocol::Udp ==> probe_bytes(c, local, ttl, ids).len()
            == header_len(c) + c.size,
        c.protocol == TraceRouteProtocol::Udp ==> read16(
            probe_bytes(c, local, ttl, ids),
            header_len(c) + 2,
        ) == probe_port(c.port, ttl),
        c.protocol == TraceRouteProtocol::Udp ==> read16(
            probe_bytes(c, local, ttl, ids),
            header_len(c) + 4,
        ) == c.size,
        c.protocol == TraceRouteProtocol::Udp ==> forall|k: int|
            header_len(c) + UDP_HEADER_LEN <= k < header_len(c) + c.size ==> probe_bytes(
                c,
                local,
                ttl,
                ids,
            )[k] == 0,
        c.protocol == TraceRouteProtocol::Icmp ==> probe_bytes(c, local, ttl, ids)[header_len(c)]
            == if c.address is V4 {
            ICMP_ECHO_REQUEST
        } else {
            ICMPV6_ECHO_REQUEST
        },
{
    match (c.address, local) {
        (IpAddress::V4(dst), IpAddress::V4(src)) => {
            if c.protocol == TraceRouteProtocol::Udp {
                let size = c.size as u16;
                let dport = probe_port(c.port, ttl);
                let u0 = udp_datagram(ids.source_port, dport, size, 0);
                let u = udp_datagram(
                    ids.source_port,
                    dport,
                    size,
                    ipv4_pseudo_checksum(u0, 3, src, dst, PROTO_UDP),
                );
                lemma_udp_fields(ids.source_port, dport, size, ipv4_pseudo_checksum(u0, 3, src, dst, PROTO_UDP));
                lemma_ipv4_packet_fields(ttl, PROTO_UDP, ids.ip_id, src, dst, u);
            } else {
                let e0 = echo_request(ICMP_ECHO_REQUEST, 0, ids.icmp_id, ids.icmp_seq);
                let e = echo_request(ICMP_ECHO_REQUEST, internet_checksum(e0, 1), ids.icmp_id, ids.icmp_seq);
                lemma_ipv4_packet_fields(ttl, PROTO_ICMP, ids.ip_id, src, dst, e);
            }
        },
        (IpAddress::V6(dst), IpAddress::V6(src)) => {
            if c.protocol == TraceRouteProtocol::Udp {
                let size = c.size as u16;
                let dport = probe_port(c.port, ttl);
                let u0 = udp_datagram(ids.source_port, dport, size, 0);
                let cs = ipv6_pseudo_checksum(u0, 3, src, dst, PROTO_UDP);
                lemma_udp_fields(ids.source_port, dport, size, cs);
                lemma_ipv6_packet_fields(size, PROTO_UDP, ttl, src, dst, udp_datagram(ids.source_port, dport, size, cs));
            } else {
                let e0 = echo_request(ICMPV6_ECHO_REQUEST, 0, ids.icmp_id, ids.icmp_seq);
                let cs = ipv6_pseudo_checksum(e0, 1, src, dst, PROTO_ICMPV6);
                lemma_ipv6_packet_fields(64, PROTO_ICMPV6, ttl, src, dst, echo_request(ICMPV6_ECHO_REQUEST, cs, ids.icmp_id, ids.icmp_seq));
            }
        },
        _ => {},
    }
}

} // verus!
