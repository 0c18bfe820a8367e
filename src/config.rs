//! Trace configuration and its validation.
use vstd::prelude::*;

use crate::addr::IpAddress;

verus! {

/// The kind of probe datagram sent at each hop.
#[derive(Clone, Copy, Debug, PartialEq, Eq, Structural)]
pub enum TraceRouteProtocol {
    Icmp,
    Udp,
}

/// Why a configuration was rejected.
#[derive(Clone, Copy, Debug, PartialEq, Eq, Structural)]
pub enum ConfigError {
    BadMaxTtl,
    BadBeginTtl,
    BadSize,
    BadTimeout,
}

pub const DEFAULT_MAX_TTL: u8 = 30;
pub const DEFAULT_BEGIN_TTL: u8 = 1;
pub const DEFAULT_MAX_TRIES: u16 = 4;
pub const DEFAULT_PORT: u16 = 33434;
pub const DEFAULT_TIMEOUT_MS: u64 = 200;
pub const DEFAULT_SIZE: usize = 64;
/// A UDP header plus four payload bytes.
pub const MIN_SIZE: usize = 12;

/// A validated description of one trace.
#[derive(Clone, Copy, Debug)]
pub struct TraceRoute {
    pub max_ttl: u8,
    pub max_tries: u16,
    pub begin_ttl: u8,
    pub address: IpAddress,
    pub port: u16,
    /// Per-probe wait, in milliseconds.
    pub timeout: u64,
    /// UDP datagram length (header and payload), in bytes.
    pub size: usize,
    pub protocol: TraceRouteProtocol,
}

/// The value an option takes: the one given, or the default.
pub open spec fn or_default<T>(o: Option<T>, d: T) -> T {
    match o {
        Some(v) => v,
        None => d,
    }
}

impl TraceRoute {
    /// The invariant that construction establishes.
    pub open spec fn wf(&self) -> bool {
        &&& 1 <= self.max_ttl
        &&& self.begin_ttl <= self.max_ttl
        &&& self.size >= MIN_SIZE
        &&& self.timeout >= 1
    }

    /// Builds a configuration from the given options and the defaults.
    ///
    /// Checks run in order: the maximum TTL must be at least one, a given
    /// start TTL at most the maximum, a given size at least `MIN_SIZE`, a
    /// given timeout non-zero.
    pub fn new(
        max_ttl: Option<u8>,
        begin_ttl: Option<u8>,
        max_tries: Option<u16>,
        timeout: Option<u64>,
        port: Option<u16>,
        size: Option<usize>,
        addr: IpAddress,
        protocol: Option<TraceRouteProtocol>,
    ) -> (r: Result<TraceRoute, ConfigError>)
        ensures
            max_ttl == Some(0u8) ==> r == Err::<TraceRoute, ConfigError>(ConfigError::BadMaxTtl),
            max_ttl != Some(0u8) && begin_ttl is Some && begin_ttl->0 > or_default(
                max_ttl,
                DEFAULT_MAX_TTL,
            ) ==> r == Err::<TraceRoute, ConfigError>(ConfigError::BadBeginTtl),
            max_ttl != Some(0u8) && !(begin_ttl is Some && begin_ttl->0 > or_default(
                max_ttl,
                DEFAULT_MAX_TTL,
            )) && size is Some && size->0 < MIN_SIZE ==> r == Err::<TraceRoute, ConfigError>(
                ConfigError::BadSize,
            ),
            max_ttl != Some(0u8) && !(begin_ttl is Some && begin_ttl->0 > or_default(
                max_ttl,
                DEFAULT_MAX_TTL,
            )) && !(size is Some && size->0 < MIN_SIZE) && timeout == Some(0u64) ==> r == Err::<
                TraceRoute,
                ConfigError,
            >(ConfigError::BadTimeout),
            r is Ok <==> (max_ttl != Some(0u8) && !(begin_ttl is Some && begin_ttl->0 > or_default(
                max_ttl,
                DEFAULT_MAX_TTL,
            )) && !(size is Some && size->0 < MIN_SIZE) && timeout != Some(0u64)),
            r matches Ok(t) ==> t.wf() && t == (TraceRoute {
                max_ttl: or_default(max_ttl, DEFAULT_MAX_TTL),
                max_tries: or_default(max_tries, DEFAULT_MAX_TRIES),
                begin_ttl: or_default(begin_ttl, DEFAULT_BEGIN_TTL),
                address: addr,
                port: or_default(port, DEFAULT_PORT),
                timeout: or_default(timeout, DEFAULT_TIMEOUT_MS),
                size: or_default(size, DEFAULT_SIZE),
                protocol: or_default(protocol, TraceRouteProtocol::Udp),
            }),
    {
        let mut t = TraceRoute {
            max_ttl: DEFAULT_MAX_TTL,
            max_tries: DEFAULT_MAX_TRIES,
            begin_ttl: DEFAULT_BEGIN_TTL,
            address: addr,
            port: DEFAULT_PORT,
            timeout: DEFAULT_TIMEOUT_MS,
            size: DEFAULT_SIZE,
            protocol: TraceRouteProtocol::Udp,
        };
        if let Some(mt) = max_ttl {
            if mt < 1 {
                return Err(ConfigError::BadMaxTtl);
            }
            t.max_ttl = mt;
        }
        if let Some(bt) = begin_ttl {
            if bt > t.max_ttl {
                return Err(ConfigError::BadBeginTtl);
            }
            t.begin_ttl = bt;
        }
        if let Some(mt) = max_tries {
            t.max_tries = mt;
        }
        if let Some(p) = port {
            t.port = p;
        }
        if let Some(s) = size {
            if s < MIN_SIZE {
                return Err(ConfigError::BadSize);
            }
            t.size = s;
        }
        if let Some(to) = timeout {
            if to == 0 {
                return Err(ConfigError::BadTimeout);
            }
            t.timeout = to;
        }
        if let Some(p) = protocol {
            t.protocol = p;
        }
        Ok(t)
    }
}

} // verus!
