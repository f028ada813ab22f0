//! Address families and the two operations on an object.

use vstd::prelude::*;
use crate::field::WireEnum;
use crate::sys::{
    NFPROTO_ARP, NFPROTO_BRIDGE, NFPROTO_INET, NFPROTO_IPV4, NFPROTO_IPV6, NFPROTO_NETDEV,
    NFPROTO_UNSPEC,
};

verus! {

/// The address family that a table, and everything in it, is defined under.
#[derive(Clone, Copy, Debug, PartialEq, Eq, Hash, Structural)]
pub enum ProtocolFamily {
    /// No family in particular.
    Unspec,
    /// IPv4 and IPv6 together.
    Inet,
    /// IPv4.
    Ipv4,
    /// ARP.
    Arp,
    /// A network device, before the packet reaches a protocol.
    NetDev,
    /// Bridged packets.
    Bridge,
    /// IPv6.
    Ipv6,
}

impl WireEnum for ProtocolFamily {
    open spec fn code(self) -> u32 {
        match self {
            ProtocolFamily::Unspec => 0,
            ProtocolFamily::Inet => 1,
            ProtocolFamily::Ipv4 => 2,
            ProtocolFamily::Arp => 3,
            ProtocolFamily::NetDev => 5,
            ProtocolFamily::Bridge => 7,
            ProtocolFamily::Ipv6 => 10,
        }
    }

    open spec fn of_code(c: u32) -> Option<Self> {
        if c == 0 {
            Some(ProtocolFamily::Unspec)
        } else if c == 1 {
            Some(ProtocolFamily::Inet)
        } else if c == 2 {
            Some(ProtocolFamily::Ipv4)
        } else if c == 3 {
            Some(ProtocolFamily::Arp)
        } else if c == 5 {
            Some(ProtocolFamily::NetDev)
        } else if c == 7 {
            Some(ProtocolFamily::Bridge)
        } else if c == 10 {
            Some(ProtocolFamily::Ipv6)
        } else {
            None
        }
    }

    fn to_code(self) -> (c: u32) {
        match self {
            ProtocolFamily::Unspec => 0,
            ProtocolFamily::Inet => 1,
            ProtocolFamily::Ipv4 => 2,
            ProtocolFamily::Arp => 3,
            ProtocolFamily::NetDev => 5,
            ProtocolFamily::Bridge => 7,
            ProtocolFamily::Ipv6 => 10,
        }
    }

    fn from_code(c: u32) -> (r: Option<Self>) {
        if c == 0 {
            Some(ProtocolFamily::Unspec)
        } else if c == 1 {
            Some(ProtocolFamily::Inet)
        } else if c == 2 {
            Some(ProtocolFamily::Ipv4)
        } else if c == 3 {
            Some(ProtocolFamily::Arp)
        } else if c == 5 {
            Some(ProtocolFamily::NetDev)
        } else if c == 7 {
            Some(ProtocolFamily::Bridge)
        } else if c == 10 {
            Some(ProtocolFamily::Ipv6)
        } else {
            None
        }
    }

    proof fn lemma_code(self) {
    }
}

impl ProtocolFamily {
    /// The family's number as the one byte of a message's family header.
    pub fn to_u8(self) -> (c: u8)
        ensures
            c == self.code(),
    {
        match self {
            ProtocolFamily::Unspec => NFPROTO_UNSPEC,
            ProtocolFamily::Inet => NFPROTO_INET,
            ProtocolFamily::Ipv4 => NFPROTO_IPV4,
            ProtocolFamily::Arp => NFPROTO_ARP,
            ProtocolFamily::NetDev => NFPROTO_NETDEV,
            ProtocolFamily::Bridge => NFPROTO_BRIDGE,
            ProtocolFamily::Ipv6 => NFPROTO_IPV6,
        }
    }
}

/// What a message asks the kernel to do with the object it carries.
#[derive(Clone, Copy, Debug, PartialEq, Eq, Hash, Structural)]
pub enum MsgType {
    /// Create the object, or update it.
    Add,
    /// Delete the object.
    Del,
}

} // verus!
