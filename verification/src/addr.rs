//! IP addresses and subnets, for both address families.
//!
//! An address is a fixed-width byte string tagged by its family and
//! compared by value. A subnet is an address plus a prefix length; it
//! supports a containment test, and the IPv4 family also derives a
//! subnet broadcast address from it.

use vstd::prelude::*;

verus! {

broadcast use vstd::array::group_array_axioms;

/// An IPv4 address: four octets in network order.
#[derive(Clone, Copy, Eq, Debug)]
pub struct Ipv4Addr {
    pub octets: [u8; 4],
}

/// An IPv6 address: sixteen octets in network order.
#[derive(Clone, Copy, Eq, Debug)]
pub struct Ipv6Addr {
    pub octets: [u8; 16],
}

impl View for Ipv4Addr {
    type V = Seq<u8>;

    open spec fn view(&self) -> Seq<u8> {
        self.octets@
    }
}

impl View for Ipv6Addr {
    type V = Seq<u8>;

    open spec fn view(&self) -> Seq<u8> {
        self.octets@
    }
}

impl PartialEq for Ipv4Addr {
    fn eq(&self, other: &Ipv4Addr) -> (r: bool) {
        let mut i: usize = 0;
        while i < 4
            invariant
                i <= 4,
                forall|j: int| 0 <= j < i ==> self.octets@[j] == other.octets@[j],
            decreases 4 - i,
        {
            if self.octets[i] != other.octets[i] {
                return false;
            }
            i += 1;
        }
        proof {
            assert(self.octets@ =~= other.octets@);
        }
        true
    }
}

impl vstd::std_specs::cmp::PartialEqSpecImpl for Ipv4Addr {
    open spec fn obeys_eq_spec() -> bool {
        true
    }

    open spec fn eq_spec(&self, other: &Ipv4Addr) -> bool {
        self@ == other@
    }
}

impl PartialEq for Ipv6Addr {
    fn eq(&self, other: &Ipv6Addr) -> (r: bool) {
        let mut i: usize = 0;
        while i < 16
            invariant
                i <= 16,
                forall|j: int| 0 <= j < i ==> self.octets@[j] == other.octets@[j],
            decreases 16 - i,
        {
            if self.octets[i] != other.octets[i] {
                return false;
            }
            i += 1;
        }
        proof {
            assert(self.octets@ =~= other.octets@);
        }
        true
    }
}

impl vstd::std_specs::cmp::PartialEqSpecImpl for Ipv6Addr {
    open spec fn obeys_eq_spec() -> bool {
        true
    }

    open spec fn eq_spec(&self, other: &Ipv6Addr) -> bool {
        self@ == other@
    }
}

impl Ipv4Addr {
    pub fn new(octets: [u8; 4]) -> (a: Ipv4Addr)
        ensures
            a@ == octets@,
    {
        Ipv4Addr { octets }
    }
}

impl Ipv6Addr {
    pub fn new(octets: [u8; 16]) -> (a: Ipv6Addr)
        ensures
            a@ == octets@,
    {
        Ipv6Addr { octets }
    }
}

/// An address plus a prefix length, denoting the set of addresses whose
/// first `prefix` bits agree with `network`.
#[derive(Clone, Copy, PartialEq, Eq, Debug)]
pub struct Subnet<A> {
    pub network: A,
    pub prefix: u8,
}

/// Whether the first `prefix` bits of `dst` agree with those of `net`,
/// both taken as byte strings in network order.
pub open spec fn prefix_match(net: Seq<u8>, prefix: u8, dst: Seq<u8>) -> bool {
    let full = prefix as int / 8;
    let rem = prefix as int % 8;
    &&& forall|i: int| 0 <= i < full ==> net[i] == dst[i]
    &&& (rem > 0 ==> net[full] >> (8 - rem) as u8 == dst[full] >> (8 - rem) as u8)
}

/// The broadcast address of the subnet `(net, prefix)`: the network
/// bytes with every bit past the prefix set to one.
pub open spec fn broadcast_view(net: Seq<u8>, prefix: u8) -> Seq<u8> {
    Seq::new(
        net.len(),
        |i: int|
            {
                let full = prefix as int / 8;
                let rem = prefix as int % 8;
                if i < full {
                    net[i]
                } else if i == full && rem > 0 {
                    net[i] | (255u8 >> rem as u8)
                } else {
                    255u8
                }
            },
    )
}

impl Subnet<Ipv4Addr> {
    /// The subnet's broadcast address: a packet addressed to it is
    /// deliverable to every host on the subnet.
    pub fn broadcast(&self) -> (b: Ipv4Addr)
        requires
            self.prefix <= 32,
        ensures
            b@ == broadcast_view(self.network@, self.prefix),
    {
        let full: usize = (self.prefix / 8) as usize;
        let rem: u8 = self.prefix % 8;
        let mut octets = self.network.octets;
        let mut i: usize = 0;
        while i < 4
            invariant
                i <= 4,
                full == self.prefix as int / 8,
                rem == self.prefix as int % 8,
                self.prefix <= 32,
                octets@.len() == 4,
                forall|j: int| 0 <= j < i ==> octets@[j] == broadcast_view(self.network@, self.prefix)[j],
                forall|j: int| i <= j < 4 ==> octets@[j] == self.network@[j],
            decreases 4 - i,
        {
            if i < full {
                // the byte lies wholly inside the prefix: keep it
            } else if i == full && rem > 0 {
                octets[i] = octets[i] | (255u8 >> rem);
            } else {
                octets[i] = 255;
            }
            i += 1;
        }
        Ipv4Addr { octets }
    }
}

} // verus!
