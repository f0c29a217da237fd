//! IPv4 socket addresses.

use vstd::prelude::*;

verus! {

/// An IPv4 socket address: a host address and a port.
///
/// `ip` holds the four octets in network order, the first octet in the most
/// significant byte, so `127.0.0.1` is `0x7f00_0001`. Port `0` in a request to
/// bind asks for a port to be assigned.
#[derive(Clone, Copy, Debug, PartialEq, Eq, Hash, Structural)]
pub struct Address {
    pub ip: u32,
    pub port: u16,
}

/// The host address whose dotted form is `a.b.c.d`.
pub open spec fn ip_of_octets(a: u8, b: u8, c: u8, d: u8) -> int {
    a * 0x100_0000 + b * 0x1_0000 + c * 0x100 + d
}

impl Address {
    /// The address `a.b.c.d:port`.
    pub fn from_octets(a: u8, b: u8, c: u8, d: u8, port: u16) -> (r: Address)
        ensures
            r.ip == ip_of_octets(a, b, c, d),
            r.port == port,
    {
        let ip: u32 = ((a as u32) << 24) | ((b as u32) << 16) | ((c as u32) << 8) | (d as u32);
        assert(ip == a as u32 * 0x100_0000 + b as u32 * 0x1_0000 + c as u32 * 0x100 + d as u32) by (bit_vector)
            requires
                ip == ((a as u32) << 24) | ((b as u32) << 16) | ((c as u32) << 8) | (d as u32),
        ;
        Address { ip, port }
    }

    /// The four octets of the host address, first octet first.
    pub fn octets(&self) -> (r: [u8; 4])
        ensures
            self.ip == ip_of_octets(r[0], r[1], r[2], r[3]),
    {
        let ip: u32 = self.ip;
        let a: u8 = (ip >> 24) as u8;
        let b: u8 = ((ip >> 16) & 0xff) as u8;
        let c: u8 = ((ip >> 8) & 0xff) as u8;
        let d: u8 = (ip & 0xff) as u8;
        assert(ip == a as u32 * 0x100_0000 + b as u32 * 0x1_0000 + c as u32 * 0x100 + d as u32) by (bit_vector)
            requires
                a == (ip >> 24) as u8,
                b == ((ip >> 16) & 0xff) as u8,
                c == ((ip >> 8) & 0xff) as u8,
                d == (ip & 0xff) as u8,
        ;
        [a, b, c, d]
    }
}

/// The octets of a host address determine it, and it determines them:
/// two dotted forms name the same host address only if they agree octet by
/// octet.
pub proof fn law_octets_are_unique(a: u8, b: u8, c: u8, d: u8, e: u8, f: u8, g: u8, h: u8)
    requires
        ip_of_octets(a, b, c, d) == ip_of_octets(e, f, g, h),
    ensures
        a == e,
        b == f,
        c == g,
        d == h,
{
}

} // verus!
