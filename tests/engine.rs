use rtraceroute::{
    HopFound, IpAddress, ProbeEvent, RoundStart, TraceRoute, TraceRouteProtocol, TraceState,
};

fn config(
    target: IpAddress,
    protocol: TraceRouteProtocol,
    begin: u8,
    max: u8,
    tries: u16,
) -> TraceRoute {
    TraceRoute::new(Some(max), Some(begin), Some(tries), Some(50), None, None, target, Some(protocol))
        .unwrap()
}

/// Drives a trace, feeding `events` in turn (timeouts once they run out).
fn run(c: TraceRoute, events: &[ProbeEvent]) -> Vec<HopFound> {
    let mut s = TraceState::new(c);
    let mut out = Vec::new();
    let mut k = 0;
    for _ in 0..10_000 {
        match s.begin_round() {
            RoundStart::Done => return out,
            RoundStart::Last(h) => out.push(h),
            RoundStart::Probe { .. } => {
                let ev = if k < events.len() { events[k] } else { ProbeEvent::Timeout };
                k += 1;
                if let Some(h) = s.on_event(ev) {
                    out.push(h);
                }
            }
        }
    }
    panic!("trace did not end");
}

fn router(n: u8) -> IpAddress {
    IpAddress::v4(10, 0, 0, n)
}

fn reply(addr: IpAddress, icmp_type: u8) -> ProbeEvent {
    ProbeEvent::Reply { addr, icmp_type, elapsed: 1500 }
}

fn check_trace_laws(h: &[HopFound]) {
    for w in h.windows(2) {
        assert!(w[0].hop_count <= w[1].hop_count);
        assert_eq!(w[0].hop_count + 1, w[1].hop_count);
    }
    assert_eq!(h.iter().filter(|o| o.is_last).count(), 1);
    assert!(h.last().unwrap().is_last);
    for (a, x) in h.iter().enumerate() {
        assert_eq!(x.time.is_some(), x.addr.is_some());
        for y in &h[a + 1..] {
            if !x.is_last && !y.is_last && x.addr.is_some() {
                assert_ne!(x.addr, y.addr);
            }
        }
    }
}

#[test]
fn unresponsive_sink_reports_every_ttl_then_ends() {
    let c = config(IpAddress::v4(198, 51, 100, 1), TraceRouteProtocol::Udp, 1, 3, 1);
    let h = run(c, &[]);
    assert_eq!(h.len(), 4);
    for (k, o) in h[..3].iter().enumerate() {
        assert_eq!(o.hop_count, k as u16 + 1);
        assert!(!o.is_last);
        assert_eq!(o.addr, None);
        assert_eq!(o.tries, 1);
    }
    assert_eq!(h[3], HopFound { addr: None, tries: 0, hop_count: 4, is_last: true, time: None });
    check_trace_laws(&h);
}

#[test]
fn loopback_echo_reply_ends_at_once() {
    let lo = IpAddress::v4(127, 0, 0, 1);
    let c = config(lo, TraceRouteProtocol::Icmp, 1, 4, 2);
    let h = run(c, &[reply(lo, 0)]);
    assert_eq!(h.len(), 1);
    assert_eq!(
        h[0],
        HopFound { addr: Some(lo), tries: 0, hop_count: 1, is_last: true, time: Some(1500) }
    );
}

#[test]
fn duplicate_responder_is_absorbed() {
    let c = config(IpAddress::v4(192, 0, 2, 9), TraceRouteProtocol::Udp, 1, 3, 2);
    let h = run(c, &[reply(router(1), 11), reply(router(1), 11)]);
    assert_eq!(h[0].addr, Some(router(1)));
    assert_eq!(h[0].hop_count, 1);
    // TTL 2: the second answer from the same router counts for nothing,
    // then the retries run out on timeouts.
    assert_eq!(h[1], HopFound { addr: None, tries: 2, hop_count: 2, is_last: false, time: None });
    assert_eq!(h[2].hop_count, 3);
    assert!(h.last().unwrap().is_last);
    check_trace_laws(&h);
}

#[test]
fn duplicate_does_not_consume_a_try() {
    let c = config(IpAddress::v4(192, 0, 2, 9), TraceRouteProtocol::Udp, 1, 1, 3);
    let mut s = TraceState::new(c);
    assert_eq!(s.begin_round(), RoundStart::Probe { ttl: 1 });
    assert_eq!(s.on_event(reply(router(5), 42)), None);
    assert_eq!(s.tries, 1);
    assert_eq!(s.begin_round(), RoundStart::Probe { ttl: 1 });
    assert_eq!(s.on_event(reply(router(5), 42)), None);
    assert_eq!(s.tries, 1);
}

#[test]
fn full_path_to_udp_destination() {
    let target = IpAddress::v4(192, 0, 2, 9);
    let c = config(target, TraceRouteProtocol::Udp, 1, 30, 3);
    let h = run(
        c,
        &[reply(router(1), 11), ProbeEvent::Timeout, reply(router(2), 11), reply(target, 3)],
    );
    assert_eq!(h.len(), 3);
    assert_eq!(h[0].addr, Some(router(1)));
    assert_eq!(h[1].addr, Some(router(2)));
    assert_eq!(h[1].hop_count, 2);
    assert_eq!(h[1].tries, 2);
    assert_eq!(
        h[2],
        HopFound { addr: Some(target), tries: 1, hop_count: 3, is_last: true, time: Some(1500) }
    );
    check_trace_laws(&h);
}

#[test]
fn single_ttl_trace_has_at_most_one_hop() {
    let c = config(IpAddress::v4(192, 0, 2, 9), TraceRouteProtocol::Udp, 1, 1, 4);
    let h = run(c, &[reply(router(1), 11)]);
    assert_eq!(h.len(), 2);
    assert_eq!(h[0].hop_count, 1);
    assert_eq!(h[1].hop_count, 2);
    assert!(h[1].is_last);
}

#[test]
fn single_try_timeout_advances() {
    let c = config(IpAddress::v4(192, 0, 2, 9), TraceRouteProtocol::Udp, 3, 9, 1);
    let mut s = TraceState::new(c);
    assert_eq!(s.begin_round(), RoundStart::Probe { ttl: 3 });
    let o = s.on_event(ProbeEvent::Timeout).unwrap();
    assert_eq!(o, HopFound { addr: None, tries: 1, hop_count: 3, is_last: false, time: None });
    assert_eq!(s.ttl, 4);
}

#[test]
fn short_timeouts_give_silent_hops() {
    let c = config(IpAddress::v4(203, 0, 113, 7), TraceRouteProtocol::Icmp, 1, 5, 3);
    let h = run(c, &[]);
    assert_eq!(h.len(), 6);
    assert!(h.iter().all(|o| o.addr.is_none()));
    check_trace_laws(&h);
}

#[test]
fn unexpected_icmp_type_is_not_a_hop() {
    let c = config(IpAddress::v4(192, 0, 2, 9), TraceRouteProtocol::Icmp, 1, 2, 2);
    // Destination Unreachable does not end an ICMP-mode trace.
    let h = run(c, &[reply(router(1), 3)]);
    assert!(h.iter().all(|o| o.addr.is_none()));
    assert_eq!(h.len(), 3);
}

#[test]
fn ipv6_time_exceeded_and_port_unreachable() {
    let target = IpAddress::V6(0x2001_0db8_0000_0000_0000_0000_0000_0009);
    let r1 = IpAddress::V6(0x2001_0db8_0000_0000_0000_0000_0000_0001);
    let c = config(target, TraceRouteProtocol::Udp, 1, 8, 2);
    let h = run(c, &[reply(r1, 3), reply(target, 1)]);
    assert_eq!(h.len(), 2);
    assert_eq!(h[0].addr, Some(r1));
    assert!(!h[0].is_last);
    assert_eq!(h[1].addr, Some(target));
    assert!(h[1].is_last);
}

#[test]
fn ipv6_echo_reply_ends_icmp_trace() {
    let target = IpAddress::V6(7);
    let c = config(target, TraceRouteProtocol::Icmp, 2, 8, 2);
    let h = run(c, &[reply(target, 129)]);
    assert_eq!(h.len(), 1);
    assert_eq!(h[0].hop_count, 2);
    assert!(h[0].is_last);
}

#[test]
fn events_outside_a_round_change_nothing() {
    let c = config(IpAddress::v4(192, 0, 2, 9), TraceRouteProtocol::Udp, 1, 3, 1);
    let mut s = TraceState::new(c);
    assert_eq!(s.on_event(ProbeEvent::Timeout), None);
    assert_eq!(s.ttl, 1);
    assert_eq!(s.tries, 0);
}

#[test]
fn ended_trace_stays_done() {
    let lo = IpAddress::v4(127, 0, 0, 1);
    let c = config(lo, TraceRouteProtocol::Icmp, 1, 4, 2);
    let mut s = TraceState::new(c);
    s.begin_round();
    assert!(s.on_event(reply(lo, 0)).unwrap().is_last);
    assert_eq!(s.begin_round(), RoundStart::Done);
}

#[test]
fn same_events_give_same_trace() {
    let target = IpAddress::v4(192, 0, 2, 9);
    let evs = [reply(router(1), 11), ProbeEvent::Timeout, reply(router(1), 11), reply(router(2), 11)];
    let a = run(config(target, TraceRouteProtocol::Udp, 1, 6, 2), &evs);
    let b = run(config(target, TraceRouteProtocol::Udp, 1, 6, 2), &evs);
    assert_eq!(a, b);
    check_trace_laws(&a);
}

#[test]
fn all_timeouts_give_one_silent_hop_per_ttl() {
    let c = config(IpAddress::v4(203, 0, 113, 7), TraceRouteProtocol::Udp, 2, 5, 3);
    let h = run(c, &[]);
    let mut expected: Vec<HopFound> = (2..=5)
        .map(|t| HopFound { addr: None, tries: 3, hop_count: t, is_last: false, time: None })
        .collect();
    expected.push(HopFound { addr: None, tries: 0, hop_count: 6, is_last: true, time: None });
    assert_eq!(h, expected);
}
