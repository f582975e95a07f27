//! An IPv4 address as four plain octets.
//!
//! Several option families carry one address or a list of addresses; on the
//! wire an address is always its four octets in order.

use vstd::prelude::*;

verus! {

/// An IPv4 address, stored as its four dotted-quad octets.
#[derive(Clone, Copy, Debug, PartialEq, Eq, Structural)]
pub struct Ipv4Addr {
    pub o0: u8,
    pub o1: u8,
    pub o2: u8,
    pub o3: u8,
}

/// The four wire bytes of an address, in dotted-quad order.
pub open spec fn addr_bytes(a: Ipv4Addr) -> Seq<u8> {
    seq![a.o0, a.o1, a.o2, a.o3]
}

/// The address spelled by the first four bytes of `b`.
pub open spec fn addr_of(b: Seq<u8>) -> Ipv4Addr
    recommends
        b.len() >= 4,
{
    Ipv4Addr { o0: b[0], o1: b[1], o2: b[2], o3: b[3] }
}

impl Ipv4Addr {
    /// Builds the address `a.b.c.d`.
    pub fn new(a: u8, b: u8, c: u8, d: u8) -> (r: Self)
        ensures
            r == (Ipv4Addr { o0: a, o1: b, o2: c, o3: d }),
    {
        Ipv4Addr { o0: a, o1: b, o2: c, o3: d }
    }

    /// The four octets in dotted-quad order.
    pub fn octets(&self) -> (r: (u8, u8, u8, u8))
        ensures
            r == (self.o0, self.o1, self.o2, self.o3),
    {
        (self.o0, self.o1, self.o2, self.o3)
    }
}

} // verus!
