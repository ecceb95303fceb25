//! The network address that the listening socket is bound to.

use vstd::prelude::*;

verus! {

/// An internet address: the four octets of version 4, or the eight
/// segments of version 6.
#[derive(Clone, Copy, Debug, PartialEq, Eq, Structural)]
pub enum IpAddress {
    V4(u8, u8, u8, u8),
    V6(u16, u16, u16, u16, u16, u16, u16, u16),
}

/// An internet address with a port.
#[derive(Clone, Copy, Debug, PartialEq, Eq, Structural)]
pub struct Address {
    pub ip: IpAddress,
    pub port: u16,
}

impl Address {
    /// Every interface, port 3000.
    pub open spec fn unspecified() -> Address {
        Address { ip: IpAddress::V4(0, 0, 0, 0), port: 3000 }
    }

    /// An address.
    pub fn new(ip: IpAddress, port: u16) -> (r: Self)
        ensures
            r == (Address { ip, port }),
    {
        Address { ip, port }
    }
}

impl Default for Address {
    fn default() -> (r: Self)
        ensures
            r == Address::unspecified(),
    {
        Address { ip: IpAddress::V4(0, 0, 0, 0), port: 3000 }
    }
}

} // verus!
