//! One record of the interface address chain.

use crate::address::{decoded, to_ipaddr, IpAddress, RawSockAddr};
use vstd::prelude::*;

verus! {

/// One node of the chain: one address of one interface.
///
/// A slot is `None` where the native record holds a null pointer.
#[derive(Debug, PartialEq, Eq)]
pub struct RawInterfaceRecord {
    /// The interface's name.
    pub name: String,
    /// The interface's flags, as the operating system numbers them.
    pub flags: u32,
    /// The address itself.
    pub addr: Option<RawSockAddr>,
    /// The netmask that belongs to the address.
    pub netmask: Option<RawSockAddr>,
    /// The fourth slot: the broadcast address on the Linux family of
    /// systems, the destination address of a point-to-point link on the BSD
    /// family. The native record has one slot for both.
    pub ifu: Option<RawSockAddr>,
}

impl Clone for RawInterfaceRecord {
    fn clone(&self) -> (copy: Self)
        ensures
            copy == *self,
    {
        RawInterfaceRecord {
            name: self.name.clone(),
            flags: self.flags,
            addr: self.addr,
            netmask: self.netmask,
            ifu: self.ifu,
        }
    }
}

/// The broadcast address of a record on the Linux family of systems, or its
/// destination address on the BSD family: whichever the platform keeps in the
/// record's fourth slot.
///
/// Every record has an answer. A record without such an address, or with one
/// of an unsupported family, gives `None`.
pub fn do_broadcast(ifaddr: &RawInterfaceRecord) -> (ip: Option<IpAddress>)
    ensures
        ip == decoded(ifaddr.ifu),
        ip is None <==> (ifaddr.ifu matches Some(slot) ==> slot is Unsupported),
{
    to_ipaddr(ifaddr.ifu)
}

} // verus!
