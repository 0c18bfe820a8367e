//! Route tracing: configuration, probe datagram construction and the
//! hop-discovery state machine, all verified.
//!
//! The library performs no I/O. A driver sends the datagrams that `probe`
//! builds, waits for ICMP answers, and feeds what it observed to the
//! `engine` state machine, which decides the hops to report.
pub mod addr;
pub mod config;
pub mod engine;
pub mod probe;

pub use addr::IpAddress;
pub use config::{ConfigError, TraceRoute, TraceRouteProtocol};
pub use engine::{HopFound, ProbeEvent, ReplyKind, RoundStart, TraceState};
pub use probe::{build_probe, get_ip_addr, Interface, ProbeIds};

