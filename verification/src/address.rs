//! Socket addresses as a record carries them, and the IP addresses they
//! decode to.

use vstd::prelude::*;

verus! {

/// An IP address, as its octets in network order.
#[derive(Clone, Copy, Debug, PartialEq, Eq)]
pub enum IpAddress {
    V4([u8; 4]),
    V6([u8; 16]),
}

/// A native socket address, read out of the memory that the operating system
/// filled in.
///
/// The address octets stand in the order in which they lie in memory, which
/// is network order.
#[derive(Clone, Copy, Debug, PartialEq, Eq)]
pub enum RawSockAddr {
    /// An address of the IPv4 family, as its four octets.
    Inet([u8; 4]),
    /// An address of the IPv6 family, as its sixteen octets.
    Inet6([u8; 16]),
    /// An address of any other family, of which only the family's number is
    /// kept.
    Unsupported { family: i32 },
}

/// The IP address that a socket address slot stands for: none where the slot
/// is empty or holds an address of a family other than IPv4 and IPv6.
pub open spec fn decoded(addr: Option<RawSockAddr>) -> Option<IpAddress> {
    match addr {
        Some(RawSockAddr::Inet(octets)) => Some(IpAddress::V4(octets)),
        Some(RawSockAddr::Inet6(octets)) => Some(IpAddress::V6(octets)),
        Some(RawSockAddr::Unsupported { .. }) => None,
        None => None,
    }
}

/// Decodes one socket address slot of a record.
///
/// An empty slot and an address of an unsupported family both give `None`:
/// neither is an error.
pub fn to_ipaddr(addr: Option<RawSockAddr>) -> (ip: Option<IpAddress>)
    ensures
        ip == decoded(addr),
{
    match addr {
        Some(RawSockAddr::Inet(octets)) => Some(IpAddress::V4(octets)),
        Some(RawSockAddr::Inet6(octets)) => Some(IpAddress::V6(octets)),
        Some(RawSockAddr::Unsupported { .. }) => None,
        None => None,
    }
}

} // verus!
