use rtraceroute::probe::{build_icmp_v4, build_udp_v4, probe_port_of};
use rtraceroute::{
    build_probe, get_ip_addr, IpAddress, Interface, ProbeIds, TraceRoute, TraceRouteProtocol,
};

const IDS: ProbeIds = ProbeIds { source_port: 0x1234, ip_id: 0xbeef, icmp_id: 0x0102, icmp_seq: 0x0304 };

fn word_sum(data: &[u8]) -> u32 {
    let mut sum: u32 = 0;
    for pair in data.chunks(2) {
        let hi = pair[0] as u32;
        let lo = if pair.len() > 1 { pair[1] as u32 } else { 0 };
        sum += (hi << 8) | lo;
    }
    sum
}

fn fold(mut sum: u32) -> u16 {
    while sum >> 16 != 0 {
        sum = (sum >> 16) + (sum & 0xffff);
    }
    sum as u16
}

fn be16(p: &[u8], off: usize) -> u16 {
    ((p[off] as u16) << 8) | p[off + 1] as u16
}

fn udp_config(target: IpAddress, size: usize, port: u16) -> TraceRoute {
    TraceRoute::new(None, None, None, None, Some(port), Some(size), target, None).unwrap()
}

#[test]
fn minimum_size_udp_probe() {
    let dst = IpAddress::v4(192, 0, 2, 1);
    let src = IpAddress::v4(10, 1, 2, 3);
    let p = build_probe(&udp_config(dst, 12, 33434), src, 5, IDS).unwrap();
    assert_eq!(p.len(), 32);
    assert_eq!(p[8], 5);
    assert_eq!(p[9], 17);
    assert_eq!(be16(&p, 2), 32);
    assert_eq!(be16(&p, 20), 0x1234);
    assert_eq!(be16(&p, 22), 33439);
    assert_eq!(be16(&p, 24), 12);
    assert_eq!(&p[28..], &[0, 0, 0, 0]);
}

#[test]
fn ipv4_header_fields_and_checksum() {
    let p = build_udp_v4(0x0a010203, 0xc0000201, 64, 33434, 7, IDS);
    assert_eq!(p.len(), 84);
    assert_eq!(&p[..2], &[0x45, 0]);
    assert_eq!(be16(&p, 4), 0xbeef);
    assert_eq!(be16(&p, 6), 0x4000);
    assert_eq!(&p[12..16], &[10, 1, 2, 3]);
    assert_eq!(&p[16..20], &[192, 0, 2, 1]);
    assert_ne!(be16(&p, 10), 0);
    assert_eq!(fold(word_sum(&p[..20])), 0xffff);
}

#[test]
fn udp_checksum_covers_pseudo_header() {
    let p = build_udp_v4(0x0a010203, 0xc0000201, 20, 33434, 1, IDS);
    let udp = &p[20..];
    assert_ne!(be16(udp, 6), 0);
    let pseudo = word_sum(&[10, 1, 2, 3, 192, 0, 2, 1]) + 17 + udp.len() as u32;
    assert_eq!(fold(pseudo + word_sum(udp)), 0xffff);
}

#[test]
fn icmp_probe_is_echo_request() {
    let p = build_icmp_v4(0x0a010203, 0xc0000201, 9, IDS);
    assert_eq!(p.len(), 84);
    assert_eq!(p[8], 9);
    assert_eq!(p[9], 1);
    assert_eq!(p[20], 8);
    assert_eq!(be16(&p, 24), 0x0102);
    assert_eq!(be16(&p, 26), 0x0304);
    assert_ne!(be16(&p, 22), 0);
    assert_eq!(fold(word_sum(&p[20..])), 0xffff);
}

#[test]
fn icmp_probe_ignores_size() {
    let c = TraceRoute::new(
        None,
        None,
        None,
        None,
        None,
        Some(500),
        IpAddress::v4(192, 0, 2, 1),
        Some(TraceRouteProtocol::Icmp),
    )
    .unwrap();
    let p = build_probe(&c, IpAddress::v4(10, 0, 0, 1), 3, IDS).unwrap();
    assert_eq!(p.len(), 84);
}

#[test]
fn ipv6_udp_probe() {
    let dst = IpAddress::V6(0x2001_0db8_0000_0000_0000_0000_0000_0001);
    let src = IpAddress::V6(0xfe80_0000_0000_0000_0000_0000_0000_0002);
    let p = build_probe(&udp_config(dst, 12, 100), src, 4, IDS).unwrap();
    assert_eq!(p.len(), 52);
    assert_eq!(p[0], 0x60);
    assert_eq!(be16(&p, 4), 12);
    assert_eq!(p[6], 17);
    assert_eq!(p[7], 4);
    assert_eq!(&p[8..10], &[0xfe, 0x80]);
    assert_eq!(p[23], 2);
    assert_eq!(&p[24..26], &[0x20, 0x01]);
    assert_eq!(p[39], 1);
    assert_eq!(be16(&p, 42), 104);
    assert_eq!(be16(&p, 44), 12);
    let mut pseudo = word_sum(&p[8..40]) + 17 + 12;
    pseudo += word_sum(&p[40..]);
    assert_eq!(fold(pseudo), 0xffff);
}

#[test]
fn ipv6_icmp_probe() {
    let c = TraceRoute::new(
        None,
        None,
        None,
        None,
        None,
        None,
        IpAddress::V6(1),
        Some(TraceRouteProtocol::Icmp),
    )
    .unwrap();
    let p = build_probe(&c, IpAddress::V6(2), 6, IDS).unwrap();
    assert_eq!(p.len(), 104);
    assert_eq!(p[6], 58);
    assert_eq!(p[7], 6);
    assert_eq!(p[40], 128);
    let pseudo = word_sum(&p[8..40]) + 58 + 64 + word_sum(&p[40..]);
    assert_eq!(fold(pseudo), 0xffff);
}

#[test]
fn family_mismatch_gives_no_probe() {
    let c = udp_config(IpAddress::v4(192, 0, 2, 1), 64, 1);
    assert!(build_probe(&c, IpAddress::V6(2), 1, IDS).is_none());
}

#[test]
fn oversized_udp_probe_is_refused() {
    let c = udp_config(IpAddress::v4(192, 0, 2, 1), 65516, 1);
    assert!(build_probe(&c, IpAddress::v4(10, 0, 0, 1), 1, IDS).is_none());
    let c = udp_config(IpAddress::v4(192, 0, 2, 1), 65515, 1);
    assert_eq!(build_probe(&c, IpAddress::v4(10, 0, 0, 1), 1, IDS).unwrap().len(), 65535);
}

#[test]
fn destination_port_wraps() {
    assert_eq!(probe_port_of(65535, 2), 1);
    assert_eq!(probe_port_of(33434, 30), 33464);
}

#[test]
fn local_address_skips_loopback_and_down() {
    let ifaces = vec![
        Interface { is_up: true, is_loopback: true, ips: vec![IpAddress::v4(127, 0, 0, 1)] },
        Interface { is_up: false, is_loopback: false, ips: vec![IpAddress::v4(10, 0, 0, 9)] },
        Interface {
            is_up: true,
            is_loopback: false,
            ips: vec![IpAddress::V6(5), IpAddress::v4(10, 0, 0, 2), IpAddress::v4(10, 0, 0, 3)],
        },
    ];
    assert_eq!(get_ip_addr(&ifaces, true), Some(IpAddress::v4(10, 0, 0, 2)));
    assert_eq!(get_ip_addr(&ifaces, false), Some(IpAddress::V6(5)));
    assert_eq!(get_ip_addr(&ifaces[..2].to_vec(), true), None);
}

#[test]
fn drawn_ids_build_a_probe() {
    let ids = ProbeIds::draw();
    let p = build_icmp_v4(1, 2, 1, ids);
    assert_eq!(be16(&p, 24), ids.icmp_id);
}
