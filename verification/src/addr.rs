//! Plain-value forms of the addresses the protocol speaks about.
//!
//! The probe protocol is IPv4-only, so an address is four octets and an
//! endpoint is an address with a 16-bit port. Callers that work with the
//! operating system's address types convert at the boundary.

use vstd::prelude::*;

verus! {

/// An IPv4 address as its four octets.
#[derive(Clone, Copy, Debug, PartialEq, Eq, Structural)]
pub struct Ipv4 {
    pub a: u8,
    pub b: u8,
    pub c: u8,
    pub d: u8,
}

impl Ipv4 {
    /// Builds an address from its four octets, highest first.
    pub fn new(a: u8, b: u8, c: u8, d: u8) -> (r: Ipv4)
        ensures
            r == (Ipv4 { a, b, c, d }),
    {
        Ipv4 { a, b, c, d }
    }
}

/// An IPv4 address together with a UDP port.
#[derive(Clone, Copy, Debug, PartialEq, Eq, Structural)]
pub struct Endpoint {
    pub ip: Ipv4,
    pub port: u16,
}

impl Endpoint {
    /// Builds an endpoint from an address and a port.
    pub fn new(ip: Ipv4, port: u16) -> (r: Endpoint)
        ensures
            r == (Endpoint { ip, port }),
    {
        Endpoint { ip, port }
    }
}

} // verus!
