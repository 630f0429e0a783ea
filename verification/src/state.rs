//! The state owned by the IP layer: per address family, a
//! forwarding-enabled flag and a forwarding table.

use vstd::prelude::*;
use crate::addr::{Ipv4Addr, Ipv6Addr};
use crate::forwarding::{prefixes_within, ForwardingTable};

verus! {

/// The per-family slice of the IP layer state.
#[derive(Clone, PartialEq, Eq, Debug)]
pub struct IpLayerStateInner<A> {
    pub forward: bool,
    pub table: ForwardingTable<A>,
}

/// The state associated with the IP layer: one inner state for each of
/// the two address families. Created with forwarding disabled and empty
/// tables; mutated only by route management and the forwarding switch,
/// never by the receive or send paths.
#[derive(Clone, PartialEq, Eq, Debug)]
pub struct IpLayerState {
    pub v4: IpLayerStateInner<Ipv4Addr>,
    pub v6: IpLayerStateInner<Ipv6Addr>,
}

/// The two states agree on every observable part: flags and routes.
pub open spec fn same_state(a: IpLayerState, b: IpLayerState) -> bool {
    &&& a.v4.forward == b.v4.forward
    &&& a.v6.forward == b.v6.forward
    &&& a.v4.table@ == b.v4.table@
    &&& a.v6.table@ == b.v6.table@
}

impl IpLayerState {
    pub open spec fn wf(self) -> bool {
        prefixes_within(self.v4.table@, 32) && prefixes_within(self.v6.table@, 128)
    }

    /// Switches packet forwarding for the IPv4 family; routes and the
    /// other family are untouched.
    pub fn set_forwarding_v4(&mut self, enabled: bool)
        ensures
            final(self).v4.forward == enabled,
            final(self).v4.table == old(self).v4.table,
            final(self).v6 == old(self).v6,
    {
        self.v4.forward = enabled;
    }

    /// Switches packet forwarding for the IPv6 family; routes and the
    /// other family are untouched.
    pub fn set_forwarding_v6(&mut self, enabled: bool)
        ensures
            final(self).v6.forward == enabled,
            final(self).v6.table == old(self).v6.table,
            final(self).v4 == old(self).v4,
    {
        self.v6.forward = enabled;
    }

    pub fn new() -> (s: IpLayerState)
        ensures
            s.wf(),
            !s.v4.forward,
            !s.v6.forward,
            s.v4.table@.len() == 0,
            s.v6.table@.len() == 0,
    {
        IpLayerState {
            v4: IpLayerStateInner { forward: false, table: ForwardingTable::new() },
            v6: IpLayerStateInner { forward: false, table: ForwardingTable::new() },
        }
    }
}

impl Default for IpLayerState {
    /// The state a stack starts with: forwarding disabled for both
    /// families, both tables empty.
    fn default() -> (s: IpLayerState)
        ensures
            s.wf(),
            !s.v4.forward,
            !s.v6.forward,
            s.v4.table@.len() == 0,
            s.v6.table@.len() == 0,
    {
        IpLayerState::new()
    }
}

} // verus!
