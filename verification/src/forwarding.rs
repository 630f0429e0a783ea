//! The forwarding table: an ordered collection of subnet-to-destination
//! routes with longest-prefix-match lookup.

use vstd::prelude::*;
use crate::addr::{prefix_match, Subnet};
use crate::device::DeviceId;
use crate::family::IpAddr;

verus! {

/// The result of a successful route lookup: the egress device and the
/// next-hop address, scoped to one address family.
#[derive(Clone, Copy, PartialEq, Eq, Debug)]
pub struct Destination<A> {
    pub next_hop: A,
    pub device: DeviceId,
}

/// One route: every address inside `subnet` is reachable via `dest`.
#[derive(Clone, Copy, PartialEq, Eq, Debug)]
pub struct ForwardingEntry<A> {
    pub subnet: Subnet<A>,
    pub dest: Destination<A>,
}

/// The per-family route store.
#[derive(Clone, PartialEq, Eq, Debug)]
pub struct ForwardingTable<A> {
    pub entries: Vec<ForwardingEntry<A>>,
}

impl<A> View for ForwardingTable<A> {
    type V = Seq<ForwardingEntry<A>>;

    open spec fn view(&self) -> Seq<ForwardingEntry<A>> {
        self.entries@
    }
}

/// Whether `dst` falls inside the subnet of route `e`.
pub open spec fn entry_matches<A: IpAddr>(e: ForwardingEntry<A>, dst: Seq<u8>) -> bool {
    prefix_match(e.subnet.network@, e.subnet.prefix, dst)
}

/// The route that a lookup of `dst` selects: among the entries whose
/// subnet contains `dst`, the one with the longest prefix, and among
/// those the earliest in the table.
pub open spec fn best_match<A: IpAddr>(
    entries: Seq<ForwardingEntry<A>>,
    dst: Seq<u8>,
) -> Option<ForwardingEntry<A>>
    decreases entries.len(),
{
    if entries.len() == 0 {
        None::<ForwardingEntry<A>>
    } else {
        let prev = best_match(entries.drop_last(), dst);
        let e = entries.last();
        if entry_matches(e, dst) && (prev is None || prev->Some_0.subnet.prefix < e.subnet.prefix) {
            Some(e)
        } else {
            prev
        }
    }
}

/// Whether two subnets denote the same address range: same network
/// bytes, same prefix length.
pub open spec fn same_subnet<A: IpAddr>(a: Subnet<A>, b: Subnet<A>) -> bool {
    a.network@ == b.network@ && a.prefix == b.prefix
}

/// The table contents after removing every route for `subnet`.
pub open spec fn without_subnet<A: IpAddr>(
    entries: Seq<ForwardingEntry<A>>,
    subnet: Subnet<A>,
) -> Seq<ForwardingEntry<A>>
    decreases entries.len(),
{
    if entries.len() == 0 {
        Seq::empty()
    } else {
        let rest = without_subnet(entries.drop_last(), subnet);
        let e = entries.last();
        if same_subnet(e.subnet, subnet) {
            rest
        } else {
            rest.push(e)
        }
    }
}

/// What a lookup of `dst` yields: the destination of the best-matching
/// route, or no route.
pub open spec fn lookup_spec<A: IpAddr>(
    entries: Seq<ForwardingEntry<A>>,
    dst: Seq<u8>,
) -> Option<Destination<A>> {
    match best_match(entries, dst) {
        Some(e) => Some(e.dest),
        None => None,
    }
}

/// Every route's subnet prefix stays within `bits`, the family's
/// address width in bits.
pub open spec fn prefixes_within<A>(entries: Seq<ForwardingEntry<A>>, bits: int) -> bool {
    forall|i: int| 0 <= i < entries.len() ==> (#[trigger] entries[i]).subnet.prefix <= bits
}

impl<A: IpAddr> ForwardingTable<A> {
    /// Every route's subnet has a prefix length the family admits.
    pub open spec fn wf(self) -> bool {
        forall|i: int|
            0 <= i < self.entries@.len() ==> (#[trigger] self.entries@[i]).subnet.wf()
    }

    pub fn new() -> (t: ForwardingTable<A>)
        ensures
            t@.len() == 0,
            t.wf(),
    {
        ForwardingTable { entries: Vec::new() }
    }

    /// Adds a route mapping `subnet` to `dest`, after any existing routes.
    pub fn add_route(&mut self, subnet: Subnet<A>, dest: Destination<A>)
        requires
            subnet.wf(),
            old(self).wf(),
        ensures
            final(self)@ == old(self)@.push(ForwardingEntry { subnet, dest }),
            final(self).wf(),
    {
        self.entries.push(ForwardingEntry { subnet, dest });
    }

    /// Removes every route for `subnet`; routes for other subnets stay,
    /// in order.
    pub fn del_route(&mut self, subnet: Subnet<A>)
        requires
            old(self).wf(),
        ensures
            final(self)@ == without_subnet(old(self)@, subnet),
            final(self).wf(),
    {
        let mut kept: Vec<ForwardingEntry<A>> = Vec::new();
        let n = self.entries.len();
        let mut i: usize = 0;
        while i < n
            invariant
                i <= n,
                n == self.entries@.len(),
                self.wf(),
                kept@ == without_subnet(self.entries@.subrange(0, i as int), subnet),
                forall|j: int| 0 <= j < kept@.len() ==> (#[trigger] kept@[j]).subnet.wf(),
            decreases n - i,
        {
            let e = self.entries[i];
            let keep = !(e.subnet.prefix == subnet.prefix && e.subnet.network.addr_eq(
                &subnet.network,
            ));
            proof {
                let sub = self.entries@.subrange(0, i + 1);
                assert(sub.drop_last() =~= self.entries@.subrange(0, i as int));
                assert(sub.last() == self.entries@[i as int]);
            }
            if keep {
                kept.push(e);
            }
            i += 1;
        }
        proof {
            assert(self.entries@.subrange(0, n as int) =~= self.entries@);
        }
        self.entries = kept;
    }

    /// Looks up the route to `dst`: longest prefix match, earliest route
    /// on a tie, or `None` when no subnet contains `dst`.
    pub fn lookup(&self, dst: &A) -> (r: Option<Destination<A>>)
        requires
            self.wf(),
        ensures
            r == lookup_spec(self@, dst@),
    {
        let mut best: Option<ForwardingEntry<A>> = None;
        let mut i: usize = 0;
        while i < self.entries.len()
            invariant
                i <= self.entries@.len(),
                self.wf(),
                best == best_match(self.entries@.subrange(0, i as int), dst@),
            decreases self.entries@.len() - i,
        {
            let e = self.entries[i];
            let matched = e.subnet.contains(dst);
            let replace = matched && match best {
                None => true,
                Some(b) => e.subnet.prefix > b.subnet.prefix,
            };
            proof {
                let sub = self.entries@.subrange(0, i + 1);
                assert(sub.drop_last() =~= self.entries@.subrange(0, i as int));
                assert(sub.last() == self.entries@[i as int]);
            }
            if replace {
                best = Some(e);
            }
            i += 1;
        }
        proof {
            assert(self.entries@.subrange(0, self.entries@.len() as int) =~= self.entries@);
        }
        match best {
            Some(e) => Some(e.dest),
            None => None,
        }
    }
}

} // verus!
