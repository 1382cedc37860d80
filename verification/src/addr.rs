//! Plain-value models of the addresses a probe works with.
//!
//! Address parsing and the operating system's own address structures are
//! collaborators outside this crate; here an address is nothing but the
//! numbers a caller wrote down, so contracts can speak about it directly.

use vstd::prelude::*;

verus! {

/// An IPv4 address, as its four dotted-quad octets.
#[derive(Copy, Clone, Debug, PartialEq, Eq, Hash, Structural)]
pub struct Ip4Addr {
    /// First octet.
    pub a: u8,
    /// Second octet.
    pub b: u8,
    /// Third octet.
    pub c: u8,
    /// Fourth octet.
    pub d: u8,
}

impl Ip4Addr {
    /// Builds an address from its four octets.
    pub fn new(a: u8, b: u8, c: u8, d: u8) -> (r: Ip4Addr)
        ensures
            r == (Ip4Addr { a, b, c, d }),
    {
        Ip4Addr { a, b, c, d }
    }
}

/// An IPv6 address, as its eight 16-bit segments.
#[derive(Copy, Clone, Debug, PartialEq, Eq, Hash, Structural)]
pub struct Ip6Addr {
    /// First segment.
    pub s0: u16,
    /// Second segment.
    pub s1: u16,
    /// Third segment.
    pub s2: u16,
    /// Fourth segment.
    pub s3: u16,
    /// Fifth segment.
    pub s4: u16,
    /// Sixth segment.
    pub s5: u16,
    /// Seventh segment.
    pub s6: u16,
    /// Eighth segment.
    pub s7: u16,
}

impl Ip6Addr {
    /// Builds an address from its eight segments.
    pub fn new(s0: u16, s1: u16, s2: u16, s3: u16, s4: u16, s5: u16, s6: u16, s7: u16) -> (r:
        Ip6Addr)
        ensures
            r == (Ip6Addr { s0, s1, s2, s3, s4, s5, s6, s7 }),
    {
        Ip6Addr { s0, s1, s2, s3, s4, s5, s6, s7 }
    }
}

/// An address of either family.
#[derive(Copy, Clone, Debug, PartialEq, Eq, Hash, Structural)]
pub enum IpAddress {
    /// An IPv4 address.
    V4(Ip4Addr),
    /// An IPv6 address.
    V6(Ip6Addr),
}

/// A pair of addresses of one family, source and destination.
#[derive(Copy, Clone, Debug, PartialEq, Eq, Hash, Structural)]
pub enum IpPair {
    /// A source and destination IPv4 pair.
    V4 {
        /// The source address.
        src: Ip4Addr,
        /// The destination address.
        dst: Ip4Addr,
    },
    /// A source and destination IPv6 pair.
    V6 {
        /// The source address.
        src: Ip6Addr,
        /// The destination address.
        dst: Ip6Addr,
    },
}

} // verus!
