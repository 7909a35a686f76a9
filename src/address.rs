use vstd::prelude::*;

verus! {

/// An IPv4 address, as its four octets in network order.
#[derive(Clone, Copy, Debug, PartialEq, Eq, Structural)]
pub struct Ipv4Address(pub u8, pub u8, pub u8, pub u8);

/// An IPv6 address, as one 128-bit integer in network order.
#[derive(Clone, Copy, Debug, PartialEq, Eq, Structural)]
pub struct Ipv6Address(pub u128);

/// An IP address of either family.
#[derive(Clone, Copy, Debug, PartialEq, Eq, Structural)]
pub enum IpAddress {
    V4(Ipv4Address),
    V6(Ipv6Address),
}

/// An IP address together with a port.
#[derive(Clone, Copy, Debug, PartialEq, Eq, Structural)]
pub struct SocketEndpoint {
    pub ip: IpAddress,
    pub port: u16,
}

/// The IPv4 loopback address, 127.0.0.1.
pub open spec fn spec_localhost_v4() -> IpAddress {
    IpAddress::V4(Ipv4Address(127, 0, 0, 1))
}

impl Ipv4Address {
    /// The IPv4 loopback address, 127.0.0.1.
    pub fn localhost() -> (r: IpAddress)
        ensures
            r == spec_localhost_v4(),
    {
        IpAddress::V4(Ipv4Address(127, 0, 0, 1))
    }
}

impl SocketEndpoint {
    pub fn new(ip: IpAddress, port: u16) -> (r: SocketEndpoint)
        ensures
            r.ip == ip,
            r.port == port,
    {
        SocketEndpoint { ip, port }
    }
}

} // verus!
