//! Transport-protocol numbers carried in an IP header.

use vstd::prelude::*;

verus! {

/// A recognized transport-layer protocol.
#[derive(Clone, Copy, PartialEq, Eq, Structural, Debug)]
pub enum IpProto {
    Icmp,
    Tcp,
    Udp,
}

/// The protocol number a header carries for `p`.
pub open spec fn proto_number_spec(p: IpProto) -> u8 {
    match p {
        IpProto::Icmp => 1,
        IpProto::Tcp => 6,
        IpProto::Udp => 17,
    }
}

/// The protocol a header's number denotes, if it is recognized.
pub open spec fn proto_from_number_spec(n: u8) -> Option<IpProto> {
    if n == 1 {
        Some(IpProto::Icmp)
    } else if n == 6 {
        Some(IpProto::Tcp)
    } else if n == 17 {
        Some(IpProto::Udp)
    } else {
        None
    }
}

impl IpProto {
    /// The protocol number this protocol is written as on the wire.
    pub fn number(self) -> (n: u8)
        ensures
            n == proto_number_spec(self),
    {
        match self {
            IpProto::Icmp => 1,
            IpProto::Tcp => 6,
            IpProto::Udp => 17,
        }
    }

    /// Reads a header's protocol number; an unrecognized number is
    /// handed back raw.
    pub fn from_number(n: u8) -> (r: Result<IpProto, u8>)
        ensures
            match proto_from_number_spec(n) {
                Some(p) => r == Ok::<IpProto, u8>(p),
                None => r == Err::<IpProto, u8>(n),
            },
    {
        if n == 1 {
            Ok(IpProto::Icmp)
        } else if n == 6 {
            Ok(IpProto::Tcp)
        } else if n == 17 {
            Ok(IpProto::Udp)
        } else {
            Err(n)
        }
    }
}

} // verus!
