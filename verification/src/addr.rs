use vstd::prelude::*;

verus! {

/// A resolved network address, as plain data: an IPv4 address packed into a
/// `u32` in network order, or an IPv6 address packed into a `u128`.
#[derive(Clone, Copy, PartialEq, Eq, Structural, Debug)]
pub enum IpAddress {
    V4(u32),
    V6(u128),
}

impl IpAddress {
    /// Pack four IPv4 octets, most significant first.
    pub fn v4_from_octets(a: u8, b: u8, c: u8, d: u8) -> (r: IpAddress)
        ensures
            r == IpAddress::V4(
                ((a as int) * 0x1000000 + (b as int) * 0x10000 + (c as int) * 0x100
                    + (d as int)) as u32,
            ),
    {
        IpAddress::V4(
            (a as u32) * 0x1000000 + (b as u32) * 0x10000 + (c as u32) * 0x100 + (d as u32),
        )
    }
}

/// A connectable address: a resolved IP address together with a port.
///
/// The resolver returns addresses with port 0; the connector owns the real
/// target port and overwrites it before connecting.
#[derive(Clone, Copy, PartialEq, Eq, Structural, Debug)]
pub struct SocketAddress {
    pub ip: IpAddress,
    pub port: u16,
}

impl SocketAddress {
    /// The form the resolver hands out: the address with port 0.
    pub fn unrouted(ip: IpAddress) -> (r: SocketAddress)
        ensures
            r == (SocketAddress { ip, port: 0u16 }),
    {
        SocketAddress { ip, port: 0 }
    }

    /// The connector's step: the same address with the request's target port.
    pub fn with_port(self, port: u16) -> (r: SocketAddress)
        ensures
            r == (SocketAddress { ip: self.ip, port }),
    {
        SocketAddress { ip: self.ip, port }
    }
}

} // verus!
