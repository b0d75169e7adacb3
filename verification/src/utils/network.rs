//! Choosing this host's public IPv6 address.
//!
//! The caller binds a UDP socket to `[::]:0`, connects it to a public IPv6
//! endpoint (no packet leaves) and reads back the local address the system
//! picked. What it read is judged here.

use vstd::prelude::*;
use vstd::string::*;

verus! {

/// The local address the system assigned to the probing socket, in text.
#[derive(Debug, Clone)]
pub enum LocalAddress {
    V4(String),
    V6(String),
}

/// Why no IPv6 address could be had.
#[derive(Debug, Clone, Copy, PartialEq, Eq, Structural)]
pub enum ProbeError {
    /// The system routed the probe over IPv4.
    OnlyIpv4,
}

impl ProbeError {
    /// The text shown for this error.
    pub fn message(&self) -> (s: String)
        ensures
            s@ == "未获取到IPv6地址，只有IPv4地址"@,
    {
        String::from_str("未获取到IPv6地址，只有IPv4地址")
    }
}

/// What a probe yields whose socket got the local address `local`.
pub open spec fn spec_local_ipv6(local: LocalAddress) -> Result<Seq<char>, ProbeError> {
    match local {
        LocalAddress::V6(text) => Ok(text@),
        LocalAddress::V4(_) => Err(ProbeError::OnlyIpv4),
    }
}

/// A probe's result, with the address as its characters.
pub open spec fn probe_view(result: Result<String, ProbeError>) -> Result<Seq<char>, ProbeError> {
    match result {
        Ok(ip) => Ok(ip@),
        Err(e) => Err(e),
    }
}

/// The host's IPv6 address, given the local address of the probing socket:
/// the address itself if it is an IPv6 address, an error otherwise.
pub fn get_local_ipv6(local: LocalAddress) -> (r: Result<String, ProbeError>)
    ensures
        probe_view(r) == spec_local_ipv6(local),
{
    match local {
        LocalAddress::V6(text) => Ok(text),
        LocalAddress::V4(_) => Err(ProbeError::OnlyIpv4),
    }
}

/// The address to publish; the socket probe is the only source.
pub fn get_preferred_ipv6(local: LocalAddress) -> (r: Result<String, ProbeError>)
    ensures
        probe_view(r) == spec_local_ipv6(local),
{
    get_local_ipv6(local)
}

} // verus!
