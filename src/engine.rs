//! The hop-discovery state machine.
//!
//! A driver alternates two calls: `begin_round`, which either reports the
//! final hop or names the TTL to probe, and `on_event`, which takes what came
//! back from that probe (an ICMP answer or a timeout) and decides whether a
//! hop is reported. Every observation ever returned is recorded in the ghost
//! `history`, over which the trace-wide guarantees are stated.
use vstd::prelude::*;

use crate::addr::IpAddress;
use crate::config::{TraceRoute, TraceRouteProtocol};

verus! {

/// One observation reported to the caller.
#[derive(Clone, Copy, Debug, PartialEq, Eq, Structural)]
pub struct HopFound {
    /// The responder, absent when no answer came.
    pub addr: Option<IpAddress>,
    /// Retries consumed at this TTL before the observation.
    pub tries: u16,
    /// The TTL of the probe.
    pub hop_count: u16,
    /// Set on the one observation that ends the trace.
    pub is_last: bool,
    /// Microseconds between sending the probe and the answer.
    pub time: Option<u64>,
}

/// What happened after a probe was sent.
#[derive(Clone, Copy, Debug, PartialEq, Eq, Structural)]
pub enum ProbeEvent {
    /// No ICMP packet arrived within the timeout.
    Timeout,
    /// An ICMP (or ICMPv6) packet of type `icmp_type` arrived from `addr`,
    /// `elapsed` microseconds after the probe was sent.
    Reply { addr: IpAddress, icmp_type: u8, elapsed: u64 },
}

/// What a round starts with.
#[derive(Clone, Copy, Debug, PartialEq, Eq, Structural)]
pub enum RoundStart {
    /// Send a probe with this TTL, then call `on_event`.
    Probe { ttl: u8 },
    /// The maximum TTL was passed: this is the final observation.
    Last(HopFound),
    /// The trace has already ended.
    Done,
}

/// How an answer from a new responder is understood.
#[derive(Clone, Copy, Debug, PartialEq, Eq, Structural)]
pub enum ReplyKind {
    /// A router on the path: the TTL expired there.
    Intermediate,
    /// The target itself answered.
    Destination,
    /// Anything else; it does not count as an answer.
    Other,
}

/// Time Exceeded, ICMP.
pub const ICMP_TIME_EXCEEDED: u8 = 11;
/// Destination Unreachable, ICMP.
pub const ICMP_DEST_UNREACHABLE: u8 = 3;
/// Echo Reply, ICMP.
pub const ICMP_ECHO_REPLY: u8 = 0;
/// Time Exceeded, ICMPv6.
pub const ICMPV6_TIME_EXCEEDED: u8 = 3;
/// Destination Unreachable, ICMPv6.
pub const ICMPV6_DEST_UNREACHABLE: u8 = 1;
/// Parameter Problem, ICMPv6. A UDP trace over IPv6 takes it, like
/// Destination Unreachable (whatever its code), as a sign that the probe
/// reached the target.
pub const ICMPV6_PARAM_PROBLEM: u8 = 4;
/// Echo Reply, ICMPv6.
pub const ICMPV6_ECHO_REPLY: u8 = 129;

/// The meaning of an ICMP type for a trace over IPv4 (`v4`) or IPv6 that
/// sends probes of the given protocol.
pub open spec fn reply_kind(v4: bool, protocol: TraceRouteProtocol, icmp_type: u8) -> ReplyKind {
    if v4 {
        if icmp_type == ICMP_TIME_EXCEEDED {
            ReplyKind::Intermediate
        } else if (protocol == TraceRouteProtocol::Udp && icmp_type == ICMP_DEST_UNREACHABLE) || (
        protocol == TraceRouteProtocol::Icmp && icmp_type == ICMP_ECHO_REPLY) {
            ReplyKind::Destination
        } else {
            ReplyKind::Other
        }
    } else {
        if icmp_type == ICMPV6_TIME_EXCEEDED {
            ReplyKind::Intermediate
        } else if (protocol == TraceRouteProtocol::Udp && (icmp_type == ICMPV6_DEST_UNREACHABLE
            || icmp_type == ICMPV6_PARAM_PROBLEM)) || (protocol == TraceRouteProtocol::Icmp
            && icmp_type == ICMPV6_ECHO_REPLY) {
            ReplyKind::Destination
        } else {
            ReplyKind::Other
        }
    }
}

/// Classifies an ICMP type.
pub fn classify(v4: bool, protocol: TraceRouteProtocol, icmp_type: u8) -> (r: ReplyKind)
    ensures
        r == reply_kind(v4, protocol, icmp_type),
{
    let udp = match protocol {
        TraceRouteProtocol::Udp => true,
        TraceRouteProtocol::Icmp => false,
    };
    if v4 {
        if icmp_type == ICMP_TIME_EXCEEDED {
            ReplyKind::Intermediate
        } else if (udp && icmp_type == ICMP_DEST_UNREACHABLE) || (!udp && icmp_type
            == ICMP_ECHO_REPLY) {
            ReplyKind::Destination
        } else {
            ReplyKind::Other
        }
    } else {
        if icmp_type == ICMPV6_TIME_EXCEEDED {
            ReplyKind::Intermediate
        } else if (udp && (icmp_type == ICMPV6_DEST_UNREACHABLE || icmp_type
            == ICMPV6_PARAM_PROBLEM)) || (!udp && icmp_type == ICMPV6_ECHO_REPLY) {
            ReplyKind::Destination
        } else {
            ReplyKind::Other
        }
    }
}

// Trace-wide properties of the sequence of reported observations.

/// TTLs never go down.
pub open spec fn hops_nondecreasing(h: Seq<HopFound>) -> bool {
    forall|a: int, b: int| 0 <= a < b < h.len() ==> h[a].hop_count <= h[b].hop_count
}

/// Only the final observation may be terminal.
pub open spec fn last_only_at_end(h: Seq<HopFound>) -> bool {
    forall|a: int| 0 <= a < h.len() - 1 ==> !h[a].is_last
}

/// A time is reported exactly when a responder is.
pub open spec fn time_iff_addr(h: Seq<HopFound>) -> bool {
    forall|a: int| 0 <= a < h.len() ==> (h[a].time is Some <==> h[a].addr is Some)
}

/// No responder is reported on two non-terminal observations.
pub open spec fn responders_distinct(h: Seq<HopFound>) -> bool {
    forall|a: int, b: int|
        0 <= a < b < h.len() && !h[a].is_last && !h[b].is_last && h[a].addr is Some
            && h[b].addr is Some ==> h[a].addr->0 != h[b].addr->0
}

/// Each TTL is reported at most once before the end.
pub open spec fn intermediates_increasing(h: Seq<HopFound>) -> bool {
    forall|a: int, b: int|
        0 <= a < b < h.len() && !h[a].is_last && !h[b].is_last ==> h[a].hop_count
            < h[b].hop_count
}

/// The engine of one trace.
pub struct TraceState {
    pub config: TraceRoute,
    /// The TTL being probed.
    pub ttl: u16,
    /// Retries used at the current TTL.
    pub tries: u16,
    /// Whether the last answer advanced the TTL.
    pub has_changed: bool,
    /// Every responder heard from so far.
    pub seen: Vec<IpAddress>,
    /// A probe was sent and its outcome is awaited.
    pub awaiting: bool,
    /// The final observation was reported.
    pub done: bool,
    /// Every observation reported so far, in order.
    pub history: Ghost<Seq<HopFound>>,
}

/// The state that an event leads to, and what it reports.
pub struct Outcome {
    pub ttl: u16,
    pub tries: u16,
    pub has_changed: bool,
    pub done: bool,
    pub seen: Seq<IpAddress>,
    pub out: Option<HopFound>,
}

/// The retry count after one more attempt.
pub open spec fn one_more_try(t: u16) -> u16 {
    if t == u16::MAX {
        t
    } else {
        (t + 1) as u16
    }
}

/// The retry count after an answer from a known responder.
pub open spec fn one_less_try(t: u16) -> u16 {
    if t > 0 {
        (t - 1) as u16
    } else {
        0
    }
}

/// Retry bookkeeping once the answer was read: count the attempt, and report
/// a silent hop and move on when the retries ran out with no progress.
pub open spec fn retry_outcome(
    c: TraceRoute,
    ttl: u16,
    tries: u16,
    has_changed: bool,
    seen: Seq<IpAddress>,
    answer: Option<HopFound>,
) -> Outcome {
    let k = one_more_try(tries);
    if k >= c.max_tries && !has_changed {
        Outcome {
            ttl: (ttl + 1) as u16,
            tries: 0,
            has_changed: false,
            done: false,
            seen,
            out: Some(
                HopFound { addr: None, tries: k, hop_count: ttl, is_last: false, time: None },
            ),
        }
    } else {
        Outcome { ttl, tries: k, has_changed, done: false, seen, out: answer }
    }
}

impl TraceState {
    pub open spec fn v4(&self) -> bool {
        self.config.address is V4
    }

    /// What an event does to an awaiting state.
    pub open spec fn step(&self, ev: ProbeEvent) -> Outcome {
        match ev {
            ProbeEvent::Timeout => retry_outcome(
                self.config,
                self.ttl,
                self.tries,
                false,
                self.seen@,
                None,
            ),
            ProbeEvent::Reply { addr, icmp_type, elapsed } => {
                if self.seen@.contains(addr) {
                    retry_outcome(
                        self.config,
                        self.ttl,
                        one_less_try(self.tries),
                        self.has_changed,
                        self.seen@,
                        None,
                    )
                } else {
                    let seen = self.seen@.push(addr);
                    let kind = reply_kind(self.v4(), self.config.protocol, icmp_type);
                    let hop = HopFound {
                        addr: Some(addr),
                        tries: self.tries,
                        hop_count: self.ttl,
                        is_last: kind == ReplyKind::Destination,
                        time: Some(elapsed),
                    };
                    match kind {
                        ReplyKind::Destination => Outcome {
                            ttl: self.ttl,
                            tries: self.tries,
                            has_changed: self.has_changed,
                            done: true,
                            seen,
                            out: Some(hop),
                        },
                        ReplyKind::Intermediate => retry_outcome(
                            self.config,
                            (self.ttl + 1) as u16,
                            0,
                            true,
                            seen,
                            Some(hop),
                        ),
                        ReplyKind::Other => retry_outcome(
                            self.config,
                            self.ttl,
                            self.tries,
                            self.has_changed,
                            seen,
                            None,
                        ),
                    }
                }
            },
        }
    }

    /// The observation that ends a trace that ran past its maximum TTL.
    pub open spec fn terminal_hop(&self) -> HopFound {
        HopFound { addr: None, tries: self.tries, hop_count: self.ttl, is_last: true, time: None }
    }

    /// The state's invariant.
    pub open spec fn wf(&self) -> bool {
        let h = self.history@;
        let c = self.config;
        &&& c.wf()
        &&& c.begin_ttl <= self.ttl <= c.max_ttl + 1
        &&& self.awaiting ==> self.ttl <= c.max_ttl && !self.done
        &&& self.done <==> (h.len() > 0 && h.last().is_last)
        &&& forall|a: int| 0 <= a < h.len() ==> h[a].hop_count == c.begin_ttl + a
        &&& self.ttl == c.begin_ttl + h.len() - (if self.done { 1int } else { 0int })
        &&& forall|a: int|
            0 <= a < h.len() && !h[a].is_last && h[a].addr is None ==> h[a].tries >= c.max_tries
        &&& forall|a: int|
            0 <= a < h.len() && !h[a].is_last ==> c.begin_ttl <= h[a].hop_count < self.ttl
                && h[a].hop_count <= c.max_ttl
        &&& forall|a: int|
            0 <= a < h.len() && !h[a].is_last && h[a].addr is Some ==> self.seen@.contains(
                h[a].addr->0,
            )
        &&& hops_nondecreasing(h)
        &&& last_only_at_end(h)
        &&& time_iff_addr(h)
        &&& responders_distinct(h)
        &&& intermediates_increasing(h)
    }

    /// The engine for a validated configuration, before its first probe.
    pub fn new(config: TraceRoute) -> (r: TraceState)
        requires
            config.wf(),
        ensures
            r.wf(),
            r.config == config,
            r.ttl == config.begin_ttl,
            r.tries == 0,
            !r.has_changed,
            r.seen@.len() == 0,
            !r.awaiting,
            !r.done,
            r.history@.len() == 0,
    {
        TraceState {
            config,
            ttl: config.begin_ttl as u16,
            tries: 0,
            has_changed: false,
            seen: Vec::new(),
            awaiting: false,
            done: false,
            history: Ghost(Seq::empty()),
        }
    }

    /// Starts a round: reports the final observation once the maximum TTL
    /// was passed, or else names the TTL to probe.
    pub fn begin_round(&mut self) -> (r: RoundStart)
        requires
            old(self).wf(),
        ensures
            final(self).wf(),
            final(self).config == old(self).config,
            final(self).ttl == old(self).ttl,
            final(self).tries == old(self).tries,
            final(self).has_changed == old(self).has_changed,
            final(self).seen@ == old(self).seen@,
            old(self).done ==> (r == RoundStart::Done && *final(self) == *old(self)),
            !old(self).done && old(self).ttl > old(self).config.max_ttl ==> (r == RoundStart::Last(
                old(self).terminal_hop(),
            ) && final(self).done && !final(self).awaiting),
            !old(self).done && old(self).ttl > old(self).config.max_ttl ==> final(self).history@
                == old(self).history@.push(old(self).terminal_hop()),
            !old(self).done && old(self).ttl <= old(self).config.max_ttl ==> (r == (RoundStart::Probe {
                ttl: old(self).ttl as u8,
            }) && final(self).awaiting && !final(self).done),
            !old(self).done && old(self).ttl <= old(self).config.max_ttl ==> final(self).history@
                == old(self).history@,
    {
        if self.done {
            return RoundStart::Done;
        }
        if self.ttl > self.config.max_ttl as u16 {
            let hop = HopFound {
                addr: None,
                tries: self.tries,
                hop_count: self.ttl,
                is_last: true,
                time: None,
            };
            self.done = true;
            self.awaiting = false;
            self.history = Ghost(self.history@.push(hop));
            return RoundStart::Last(hop);
        }
        self.awaiting = true;
        RoundStart::Probe { ttl: self.ttl as u8 }
    }

    /// Takes the outcome of the probe sent for this round. An answer from a
    /// new responder is recorded; a Time Exceeded answer reports the hop and
    /// moves to the next TTL, an arrival answer reports the final hop; an
    /// answer from a known responder does not count as a try. Then the
    /// attempt is counted, and once `max_tries` attempts brought no progress
    /// a silent hop is reported and the next TTL follows. Outside a round
    /// nothing changes.
    pub fn on_event(&mut self, ev: ProbeEvent) -> (r: Option<HopFound>)
        requires
            old(self).wf(),
        ensures
            final(self).wf(),
            !old(self).awaiting ==> (r is None && *final(self) == *old(self)),
            old(self).awaiting ==> ({
                let o = old(self).step(ev);
                &&& final(self).ttl == o.ttl
                &&& final(self).tries == o.tries
                &&& final(self).has_changed == o.has_changed
                &&& final(self).done == o.done
                &&& final(self).seen@ == o.seen
                &&& r == o.out
            }),
            old(self).awaiting ==> (final(self).config == old(self).config && !final(self).awaiting),
            r is Some ==> final(self).history@ == old(self).history@.push(r->0),
            r is None ==> final(self).history@ == old(self).history@,
    {
        if !self.awaiting {
            return None;
        }
        let ghost pre = *self;
        self.awaiting = false;
        let mut answer: Option<HopFound> = None;
        let mut has_changed = self.has_changed;
        let mut tries = self.tries;
        let mut ttl = self.ttl;
        match ev {
            ProbeEvent::Timeout => {
                has_changed = false;
            },
            ProbeEvent::Reply { addr, icmp_type, elapsed } => {
                if contains(&self.seen, addr) {
                    if tries > 0 {
                        tries = tries - 1;
                    }
                } else {
                    self.seen.push(addr);
                    proof {
                        assert(self.seen@[self.seen@.len() - 1] == addr);
                        assert forall|x: IpAddress| pre.seen@.contains(x) implies self.seen@.contains(
                            x,
                        ) by {
                            assert(self.seen@[pre.seen@.index_of(x)] == x);
                        }
                    }
                    let kind = classify(self.config.address.is_ipv4(), self.config.protocol, icmp_type);
                    let hop = HopFound {
                        addr: Some(addr),
                        tries: self.tries,
                        hop_count: self.ttl,
                        is_last: kind == ReplyKind::Destination,
                        time: Some(elapsed),
                    };
                    match kind {
                        ReplyKind::Destination => {
                            self.done = true;
                            self.history = Ghost(self.history@.push(hop));
                            proof {
                                self.lemma_push_keeps_props(pre, hop);
                            }
                            return Some(hop);
                        },
                        ReplyKind::Intermediate => {
                            answer = Some(hop);
                            has_changed = true;
                            ttl = ttl + 1;
                            tries = 0;
                        },
                        ReplyKind::Other => {},
                    }
                }
            },
        }
        if tries < u16::MAX {
            tries = tries + 1;
        }
        let mut out = answer;
        if tries >= self.config.max_tries && !has_changed {
            out = Some(
                HopFound { addr: None, tries, hop_count: ttl, is_last: false, time: None },
            );
            tries = 0;
            ttl = ttl + 1;
            has_changed = false;
        }
        self.ttl = ttl;
        self.tries = tries;
        self.has_changed = has_changed;
        if let Some(hop) = out {
            self.history = Ghost(self.history@.push(hop));
            proof {
                self.lemma_push_keeps_props(pre, hop);
            }
        }
        out
    }

    /// Appending an observation at the TTL of `pre`, fresh or silent,
    /// keeps the trace-wide properties.
    proof fn lemma_push_keeps_props(&self, pre: TraceState, hop: HopFound)
        requires
            pre.wf(),
            pre.awaiting,
            self.config == pre.config,
            self.history@ == pre.history@.push(hop),
            hop.hop_count == pre.ttl,
            hop.time is Some <==> hop.addr is Some,
            hop.addr is Some ==> !pre.seen@.contains(hop.addr->0) && self.seen@.contains(
                hop.addr->0,
            ),
            forall|x: IpAddress| pre.seen@.contains(x) ==> self.seen@.contains(x),
        ensures
            hops_nondecreasing(self.history@),
            last_only_at_end(self.history@),
            time_iff_addr(self.history@),
            responders_distinct(self.history@),
            intermediates_increasing(self.history@),
            forall|a: int|
                0 <= a < self.history@.len() && !self.history@[a].is_last
                    && self.history@[a].addr is Some ==> self.seen@.contains(
                    self.history@[a].addr->0,
                ),
    {
        let h = self.history@;
        let n = pre.history@.len();
        assert forall|a: int| 0 <= a < n implies h[a] == pre.history@[a] by {}
        assert(h[n as int] == hop);
        assert forall|a: int|
            0 <= a < h.len() && !h[a].is_last && h[a].addr is Some implies self.seen@.contains(
                h[a].addr->0,
            ) by {
            if a < n {
                assert(pre.seen@.contains(h[a].addr->0));
            }
        }
        assert forall|a: int, b: int|
            0 <= a < b < h.len() && !h[a].is_last && !h[b].is_last && h[a].addr is Some
                && h[b].addr is Some implies h[a].addr->0 != h[b].addr->0 by {
            if b == n {
                assert(pre.seen@.contains(h[a].addr->0));
            }
        }
    }
}

/// Whether `x` occurs in `v`.
pub fn contains(v: &Vec<IpAddress>, x: IpAddress) -> (r: bool)
    ensures
        r == v@.contains(x),
{
    let mut i: usize = 0;
    while i < v.len()
        invariant
            0 <= i <= v.len(),
            forall|j: int| 0 <= j < i ==> v@[j] != x,
        decreases v.len() - i,
    {
        if v[i] == x {
            return true;
        }
        i = i + 1;
    }
    false
}

/// Over a whole trace the TTLs reported never go down.
pub proof fn lemma_hop_counts_nondecreasing(s: TraceState)
    requires
        s.wf(),
    ensures
        forall|a: int, b: int|
            0 <= a < b < s.history@.len() ==> s.history@[a].hop_count
                <= s.history@[b].hop_count,
{
}

/// Until the trace ends no observation is terminal; once it has ended
/// exactly one is, and it is the last one.
pub proof fn lemma_single_terminal(s: TraceState)
    requires
        s.wf(),
    ensures
        !s.done ==> forall|a: int| 0 <= a < s.history@.len() ==> !s.history@[a].is_last,
        s.done ==> s.history@.len() > 0 && s.history@.last().is_last,
        s.done ==> forall|a: int|
            0 <= a < s.history@.len() && s.history@[a].is_last ==> a == s.history@.len() - 1,
{
    let h = s.history@;
    if !s.done {
        assert forall|a: int| 0 <= a < h.len() implies !h[a].is_last by {
            if a == h.len() - 1 {
                assert(h[a] == h.last());
            }
        }
    }
}

/// A responder reported on a non-terminal observation is reported on no
/// other non-terminal observation of the same trace.
pub proof fn lemma_responders_unique(s: TraceState)
    requires
        s.wf(),
    ensures
        forall|a: int, b: int|
            0 <= a < s.history@.len() && 0 <= b < s.history@.len() && a != b
                && !s.history@[a].is_last && !s.history@[b].is_last
                && s.history@[a].addr is Some && s.history@[b].addr is Some
                ==> s.history@[a].addr != s.history@[b].addr,
{
    let h = s.history@;
    assert forall|a: int, b: int|
        0 <= a < h.len() && 0 <= b < h.len() && a != b && !h[a].is_last && !h[b].is_last
            && h[a].addr is Some && h[b].addr is Some implies h[a].addr != h[b].addr by {
        if a < b {
            assert(h[a].addr->0 != h[b].addr->0);
        } else {
            assert(h[b].addr->0 != h[a].addr->0);
        }
    }
}

/// Every observation that carries a time carries a responder.
pub proof fn lemma_time_has_addr(s: TraceState)
    requires
        s.wf(),
    ensures
        forall|a: int|
            0 <= a < s.history@.len() && s.history@[a].time is Some ==> s.history@[a].addr is Some,
{
}

/// When the trace starts at its maximum TTL, at most one hop is reported
/// before the end: the history holds at most two observations.
pub proof fn lemma_single_ttl_trace(s: TraceState)
    requires
        s.wf(),
        s.config.begin_ttl == s.config.max_ttl,
    ensures
        s.history@.len() <= 2,
        forall|a: int|
            0 <= a < s.history@.len() && !s.history@[a].is_last ==> s.history@[a].hop_count
                == s.config.max_ttl,
{
    let h = s.history@;
    if h.len() > 2 {
        assert(!h[0].is_last && !h[1].is_last);
        assert(h[0].hop_count < h[1].hop_count);
    }
}

/// With a single try per TTL, a probe that times out reports exactly one
/// silent observation at its TTL and moves on to the next TTL.
pub proof fn lemma_single_try_timeout(s: TraceState)
    requires
        s.wf(),
        s.awaiting,
        s.config.max_tries == 1,
    ensures
        s.step(ProbeEvent::Timeout).out == Some(
            HopFound {
                addr: None,
                tries: one_more_try(s.tries),
                hop_count: s.ttl,
                is_last: false,
                time: None,
            },
        ),
        s.step(ProbeEvent::Timeout).ttl == s.ttl + 1,
        s.step(ProbeEvent::Timeout).tries == 0,
{
}

/// Observation `k` of a trace reports TTL `begin_ttl + k`: TTLs are
/// consecutive and strictly increasing. A silent (non-terminal, addressless)
/// observation comes only after `max_tries` attempts.
pub proof fn lemma_hop_counts_consecutive(s: TraceState)
    requires
        s.wf(),
    ensures
        forall|k: int|
            0 <= k < s.history@.len() ==> s.history@[k].hop_count == s.config.begin_ttl + k,
        forall|k: int|
            0 <= k < s.history@.len() && !s.history@[k].is_last && s.history@[k].addr is None
                ==> s.history@[k].tries >= s.config.max_tries,
        !s.done ==> s.ttl == s.config.begin_ttl + s.history@.len(),
{
}

/// Two engines with the same configuration and progress react to the same
/// event in the same way: a trace is determined by the events it sees.
pub proof fn lemma_step_deterministic(s1: TraceState, s2: TraceState, ev: ProbeEvent)
    requires
        s1.config == s2.config,
        s1.ttl == s2.ttl,
        s1.tries == s2.tries,
        s1.has_changed == s2.has_changed,
        s1.seen@ == s2.seen@,
    ensures
        s1.step(ev) == s2.step(ev),
{
}

/// On a timeout the attempt is counted; once `max_tries` attempts are used
/// a silent hop is reported at the current TTL and the next TTL starts
/// afresh, otherwise nothing is reported and the TTL stays.
pub proof fn lemma_timeout_step(s: TraceState)
    requires
        s.wf(),
        s.awaiting,
    ensures
        one_more_try(s.tries) >= s.config.max_tries ==> s.step(ProbeEvent::Timeout).out == Some(
            HopFound {
                addr: None,
                tries: one_more_try(s.tries),
                hop_count: s.ttl,
                is_last: false,
                time: None,
            },
        ),
        one_more_try(s.tries) >= s.config.max_tries ==> s.step(ProbeEvent::Timeout).ttl == s.ttl
            + 1 && s.step(ProbeEvent::Timeout).tries == 0,
        one_more_try(s.tries) < s.config.max_tries ==> s.step(ProbeEvent::Timeout).out is None
            && s.step(ProbeEvent::Timeout).ttl == s.ttl && s.step(ProbeEvent::Timeout).tries
            == one_more_try(s.tries),
        !s.step(ProbeEvent::Timeout).has_changed,
        !s.step(ProbeEvent::Timeout).done,
{
}

/// An answer from a responder already heard from is absorbed: it is never
/// reported again, and the TTL moves on only when the retries run out, with
/// a silent hop.
pub proof fn lemma_known_responder_absorbed(s: TraceState, addr: IpAddress, icmp_type: u8, elapsed: u64)
    requires
        s.wf(),
        s.awaiting,
        s.seen@.contains(addr),
    ensures
        ({
            let o = s.step(ProbeEvent::Reply { addr, icmp_type, elapsed });
            &&& !o.done
            &&& o.seen == s.seen@
            &&& o.out is Some ==> o.out->0.addr is None && !o.out->0.is_last && o.ttl == s.ttl + 1
            &&& o.out is None ==> o.ttl == s.ttl
        }),
{
}

/// In ICMP mode, an Echo Reply from a new responder ends the trace with
/// that responder as the final observation.
pub proof fn lemma_echo_reply_ends(s: TraceState, addr: IpAddress, elapsed: u64)
    requires
        s.wf(),
        s.awaiting,
        s.config.protocol == TraceRouteProtocol::Icmp,
        !s.seen@.contains(addr),
    ensures
        ({
            let t = if s.v4() {
                ICMP_ECHO_REPLY
            } else {
                ICMPV6_ECHO_REPLY
            };
            let o = s.step(ProbeEvent::Reply { addr, icmp_type: t, elapsed });
            &&& o.done
            &&& o.out == Some(
                HopFound {
                    addr: Some(addr),
                    tries: s.tries,
                    hop_count: s.ttl,
                    is_last: true,
                    time: Some(elapsed),
                },
            )
        }),
{
}

} // verus!
