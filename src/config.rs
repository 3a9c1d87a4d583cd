//! Transport settings: retry budget, continuation timeout and the local
//! addresses of each endpoint.
use vstd::prelude::*;
use crate::punch::DEFAULT_RETRIES;

verus! {

/// Default wait for a continuation datagram or a STUN reply, in
/// milliseconds.
pub const DEFAULT_TIMEOUT_MS: u64 = 25;

/// Retry budget and receive timeout of an endpoint.
#[derive(Debug, Clone, Copy, PartialEq, Eq, Structural)]
pub struct SocketConfig {
    pub retries: u16,
    pub timeout_ms: u64,
}

impl SocketConfig {
    pub fn new(retries: u16, timeout_ms: u64) -> (r: SocketConfig)
        ensures
            r.retries == retries,
            r.timeout_ms == timeout_ms,
    {
        SocketConfig { retries, timeout_ms }
    }

    /// A budget of 1000 rounds and a 25 ms timeout.
    pub fn default() -> (r: SocketConfig)
        ensures
            r.retries == 1000,
            r.timeout_ms == 25,
    {
        SocketConfig { retries: DEFAULT_RETRIES, timeout_ms: DEFAULT_TIMEOUT_MS }
    }
}

/// The `socket` table of the configuration file, timeout in milliseconds.
#[derive(Debug, Clone, Copy, PartialEq, Eq, Structural)]
pub struct SocketConfigRaw {
    pub retries: u16,
    pub timeout: u64,
}

impl SocketConfigRaw {
    pub fn into_config(self) -> (r: SocketConfig)
        ensures
            r.retries == self.retries,
            r.timeout_ms == self.timeout,
    {
        SocketConfig::new(self.retries, self.timeout)
    }
}

/// One local address or several, each written `ip:port`.
#[derive(Debug, Clone)]
pub enum ClientAddress {
    Single(String),
    Vector(Vec<String>),
}

pub open spec fn address_list(a: ClientAddress) -> Seq<Seq<char>> {
    match a {
        ClientAddress::Single(s) => seq![s@],
        ClientAddress::Vector(v) => v@.map_values(|s: String| s@),
    }
}

impl ClientAddress {
    /// The addresses as a list.
    pub fn into_vec(self) -> (r: Vec<String>)
        ensures
            r@.map_values(|s: String| s@) == address_list(self),
    {
        match self {
            ClientAddress::Single(s) => {
                let ghost v = s@;
                let r = vec![s];
                assert(r@.map_values(|s: String| s@) =~= seq![v]);
                r
            },
            ClientAddress::Vector(v) => v,
        }
    }
}

/// An endpoint: its local addresses, an optional hop limit, and an optional
/// software tag for STUN requests.
#[derive(Debug, Clone)]
pub enum Client {
    UDP { addr: ClientAddress, ttl: Option<u32>, sw_tag: Option<String> },
}

} // verus!
