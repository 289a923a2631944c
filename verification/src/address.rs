//! Plain-value network addresses.

use vstd::prelude::*;

verus! {

/// An IP address, written out part by part: four octets for version 4,
/// eight 16-bit segments for version 6, most significant part first.
#[derive(Clone, Copy, Debug, PartialEq, Eq, Structural)]
pub enum IpAddress {
    V4(u8, u8, u8, u8),
    V6(u16, u16, u16, u16, u16, u16, u16, u16),
}

/// An IP address together with a port.
#[derive(Clone, Copy, Debug, PartialEq, Eq, Structural)]
pub struct SocketAddress {
    pub ip: IpAddress,
    pub port: u16,
}

impl SocketAddress {
    /// The version 4 address `a.b.c.d:port`.
    pub fn v4(a: u8, b: u8, c: u8, d: u8, port: u16) -> (addr: SocketAddress)
        ensures
            addr == (SocketAddress { ip: IpAddress::V4(a, b, c, d), port }),
    {
        SocketAddress { ip: IpAddress::V4(a, b, c, d), port }
    }
}

} // verus!
