//! The address-family abstraction: one interface implemented once per
//! protocol version, with no default case, supplying the
//! version-specific constants and operations the shared receive and
//! send pipelines are parameterized by.

use vstd::prelude::*;
use crate::addr::{broadcast_view, prefix_match, Ipv4Addr, Ipv6Addr, Subnet};
use crate::context::Context;
use crate::device::DeviceId;
use crate::forwarding::{prefixes_within, ForwardingTable};
use crate::state::IpLayerState;

verus! {

broadcast use vstd::array::group_array_axioms;

/// An IP address of one family. The two implementors, `Ipv4Addr` and
/// `Ipv6Addr`, supply the family's constants (loopback subnet and
/// address), its local-delivery test, and its accessors into the IP
/// layer state and the per-device configuration.
pub trait IpAddr: Sized + Copy + View<V = Seq<u8>> {
    /// Width of an address of this family, in bytes.
    spec fn byte_len_spec() -> nat;

    /// Every address views as exactly `byte_len_spec` bytes.
    proof fn lemma_view_len(&self)
        ensures
            self@.len() == Self::byte_len_spec(),
    ;

    /// Addresses are at most sixteen bytes wide, so a header length
    /// always fits comfortably in a machine word.
    proof fn lemma_byte_len_bound()
        ensures
            0 < Self::byte_len_spec() <= 16,
    ;

    fn byte_len() -> (n: usize)
        ensures
            n == Self::byte_len_spec(),
    ;

    /// The `i`th octet of the address, in network order.
    fn octet(&self, i: usize) -> (b: u8)
        requires
            i < Self::byte_len_spec(),
        ensures
            b == self@[i as int],
    ;

    /// Whether the two addresses are the same, byte for byte.
    fn addr_eq(&self, other: &Self) -> (r: bool)
        ensures
            r == (self@ == other@),
    ;

    /// Reads one address out of `buf`, starting at `off`.
    fn from_bytes(buf: &Vec<u8>, off: usize) -> (a: Self)
        requires
            off + Self::byte_len_spec() <= buf@.len(),
        ensures
            a@ == buf@.subrange(off as int, off + Self::byte_len_spec()),
    ;

    /// The network bytes of the family's loopback subnet.
    spec fn loopback_net_spec() -> Seq<u8>;

    /// The prefix length of the family's loopback subnet.
    spec fn loopback_prefix_spec() -> u8;

    /// The family's loopback address, viewed as bytes.
    spec fn loopback_addr_view() -> Seq<u8>;

    /// The loopback subnet is well formed and as wide as an address.
    proof fn lemma_loopback_wf()
        ensures
            Self::loopback_prefix_spec() <= 8 * Self::byte_len_spec(),
            Self::loopback_net_spec().len() == Self::byte_len_spec(),
            Self::loopback_addr_view().len() == Self::byte_len_spec(),
            prefix_match(
                Self::loopback_net_spec(),
                Self::loopback_prefix_spec(),
                Self::loopback_addr_view(),
            ),
    ;

    /// The reserved subnet that must never appear on a real link.
    fn loopback_subnet() -> (s: Subnet<Self>)
        ensures
            s.network@ == Self::loopback_net_spec(),
            s.prefix == Self::loopback_prefix_spec(),
    ;

    /// The address local traffic is sourced from.
    fn loopback_addr() -> (a: Self)
        ensures
            a@ == Self::loopback_addr_view(),
    ;

    /// Whether a packet addressed to `dst` is deliverable locally on a
    /// device configured with `config`: the destination equals the
    /// device address or the subnet's broadcast address or, for IPv4
    /// only, the global broadcast address. IPv6 local delivery is a
    /// stub that reports nothing deliverable.
    spec fn is_deliverable_spec(dst: Seq<u8>, config: Option<(Self, Subnet<Self>)>) -> bool;

    fn is_deliverable(dst: &Self, config: Option<(Self, Subnet<Self>)>) -> (r: bool)
        requires
            config matches Some(c) ==> c.1.prefix <= 8 * Self::byte_len_spec(),
        ensures
            r == Self::is_deliverable_spec(dst@, config),
    ;

    /// Whether the IP layer forwards packets of this family.
    spec fn forwarding_enabled_spec(s: IpLayerState) -> bool;

    fn forwarding_enabled(s: &IpLayerState) -> (r: bool)
        ensures
            r == Self::forwarding_enabled_spec(*s),
    ;

    /// This family's forwarding table inside the IP layer state.
    spec fn table_spec(s: IpLayerState) -> ForwardingTable<Self>;

    fn table(s: &IpLayerState) -> (t: &ForwardingTable<Self>)
        ensures
            *t == Self::table_spec(*s),
    ;

    /// A well-formed state has a well-formed table for this family.
    proof fn lemma_table_wf(s: IpLayerState)
        requires
            s.wf(),
        ensures
            prefixes_within(Self::table_spec(s)@, 8 * Self::byte_len_spec() as int),
    ;

    /// The address and subnet assigned to `device` for this family, or
    /// none while the device is unconfigured or unknown.
    spec fn device_addr_spec(ctx: Context, device: DeviceId) -> Option<(Self, Subnet<Self>)>;

    fn device_addr(ctx: &Context, device: DeviceId) -> (r: Option<(Self, Subnet<Self>)>)
        ensures
            r == Self::device_addr_spec(*ctx, device),
    ;

    /// A well-formed context only hands out well-formed subnets.
    proof fn lemma_device_addr_wf(ctx: Context, device: DeviceId)
        requires
            ctx.wf(),
        ensures
            Self::device_addr_spec(ctx, device) matches Some(c) ==> c.1.prefix <= 8
                * Self::byte_len_spec(),
    ;
}

impl<A: IpAddr> Subnet<A> {
    /// The prefix length does not exceed the family's address width.
    pub open spec fn wf(self) -> bool {
        self.prefix <= 8 * A::byte_len_spec()
    }

    pub fn new(network: A, prefix: u8) -> (s: Subnet<A>)
        requires
            prefix <= 8 * A::byte_len_spec(),
        ensures
            s.network == network,
            s.prefix == prefix,
            s.wf(),
    {
        Subnet { network, prefix }
    }

    /// Whether `a` falls inside this subnet: the first `prefix` bits of
    /// `a` agree with the network address.
    pub fn contains(&self, a: &A) -> (r: bool)
        requires
            self.wf(),
        ensures
            r == prefix_match(self.network@, self.prefix, a@),
    {
        let full: usize = (self.prefix / 8) as usize;
        let rem: u8 = self.prefix % 8;
        let mut i: usize = 0;
        while i < full
            invariant
                i <= full,
                self.wf(),
                full == self.prefix as int / 8,
                rem == self.prefix as int % 8,
                forall|j: int| 0 <= j < i ==> self.network@[j] == a@[j],
            decreases full - i,
        {
            proof {
                if rem > 0 {
                    assert(8 * (full as int) < self.prefix as int);
                }
            }
            if self.network.octet(i) != a.octet(i) {
                proof {
                    assert(!prefix_match(self.network@, self.prefix, a@));
                }
                return false;
            }
            i += 1;
        }
        if rem > 0 {
            proof {
                assert(8 * (full as int) < self.prefix as int);
            }
            let shift: u8 = 8 - rem;
            let nb = self.network.octet(full);
            let ab = a.octet(full);
            (nb >> shift) == (ab >> shift)
        } else {
            true
        }
    }
}

impl IpAddr for Ipv4Addr {
    open spec fn byte_len_spec() -> nat {
        4
    }

    proof fn lemma_view_len(&self) {
    }

    proof fn lemma_byte_len_bound() {
    }

    fn byte_len() -> usize {
        4
    }

    fn octet(&self, i: usize) -> u8 {
        self.octets[i]
    }

    fn addr_eq(&self, other: &Ipv4Addr) -> bool {
        *self == *other
    }

    fn from_bytes(buf: &Vec<u8>, off: usize) -> (a: Ipv4Addr) {
        let n = buf.len();
        let mut octets: [u8; 4] = [0u8; 4];
        let mut i: usize = 0;
        while i < 4
            invariant
                i <= 4,
                off + 4 <= n == buf@.len(),
                octets@.len() == 4,
                forall|j: int| 0 <= j < i ==> octets@[j] == buf@[off + j],
            decreases 4 - i,
        {
            octets[i] = buf[off + i];
            i += 1;
        }
        proof {
            assert(octets@ =~= buf@.subrange(off as int, off + 4));
        }
        Ipv4Addr { octets }
    }

    open spec fn loopback_net_spec() -> Seq<u8> {
        seq![127u8, 0u8, 0u8, 0u8]
    }

    open spec fn loopback_prefix_spec() -> u8 {
        8
    }

    open spec fn loopback_addr_view() -> Seq<u8> {
        seq![127u8, 0u8, 0u8, 1u8]
    }

    proof fn lemma_loopback_wf() {
    }

    fn loopback_subnet() -> (s: Subnet<Ipv4Addr>) {
        let network = Ipv4Addr { octets: [127, 0, 0, 0] };
        proof {
            assert(network@ =~= Ipv4Addr::loopback_net_spec());
        }
        Subnet { network, prefix: 8 }
    }

    fn loopback_addr() -> (a: Ipv4Addr) {
        let a = Ipv4Addr { octets: [127, 0, 0, 1] };
        proof {
            assert(a@ =~= Ipv4Addr::loopback_addr_view());
        }
        a
    }

    open spec fn is_deliverable_spec(dst: Seq<u8>, config: Option<(Ipv4Addr, Subnet<Ipv4Addr>)>) -> bool {
        ||| (config matches Some(c) && (dst == c.0@ || dst == broadcast_view(c.1.network@, c.1.prefix)))
        ||| dst == seq![255u8, 255u8, 255u8, 255u8]
    }

    fn is_deliverable(dst: &Ipv4Addr, config: Option<(Ipv4Addr, Subnet<Ipv4Addr>)>) -> (r: bool) {
        let global = Ipv4Addr { octets: [255, 255, 255, 255] };
        proof {
            assert(global@ =~= seq![255u8, 255u8, 255u8, 255u8]);
        }
        match config {
            Some((addr, subnet)) => *dst == addr || *dst == subnet.broadcast() || *dst == global,
            None => *dst == global,
        }
    }

    open spec fn forwarding_enabled_spec(s: IpLayerState) -> bool {
        s.v4.forward
    }

    fn forwarding_enabled(s: &IpLayerState) -> bool {
        s.v4.forward
    }

    open spec fn table_spec(s: IpLayerState) -> ForwardingTable<Ipv4Addr> {
        s.v4.table
    }

    fn table(s: &IpLayerState) -> &ForwardingTable<Ipv4Addr> {
        &s.v4.table
    }

    proof fn lemma_table_wf(s: IpLayerState) {
    }

    open spec fn device_addr_spec(ctx: Context, device: DeviceId) -> Option<(Ipv4Addr, Subnet<Ipv4Addr>)> {
        if device.id < ctx.devices@.len() {
            ctx.devices@[device.id as int].v4
        } else {
            None
        }
    }

    fn device_addr(ctx: &Context, device: DeviceId) -> Option<(Ipv4Addr, Subnet<Ipv4Addr>)> {
        if device.id < ctx.devices.len() {
            ctx.devices[device.id].v4
        } else {
            None
        }
    }

    proof fn lemma_device_addr_wf(ctx: Context, device: DeviceId) {
    }
}

impl IpAddr for Ipv6Addr {
    open spec fn byte_len_spec() -> nat {
        16
    }

    proof fn lemma_view_len(&self) {
    }

    proof fn lemma_byte_len_bound() {
    }

    fn byte_len() -> usize {
        16
    }

    fn octet(&self, i: usize) -> u8 {
        self.octets[i]
    }

    fn addr_eq(&self, other: &Ipv6Addr) -> bool {
        *self == *other
    }

    fn from_bytes(buf: &Vec<u8>, off: usize) -> (a: Ipv6Addr) {
        let n = buf.len();
        let mut octets: [u8; 16] = [0u8; 16];
        let mut i: usize = 0;
        while i < 16
            invariant
                i <= 16,
                off + 16 <= n == buf@.len(),
                octets@.len() == 16,
                forall|j: int| 0 <= j < i ==> octets@[j] == buf@[off + j],
            decreases 16 - i,
        {
            octets[i] = buf[off + i];
            i += 1;
        }
        proof {
            assert(octets@ =~= buf@.subrange(off as int, off + 16));
        }
        Ipv6Addr { octets }
    }

    open spec fn loopback_net_spec() -> Seq<u8> {
        seq![0u8, 0u8, 0u8, 0u8, 0u8, 0u8, 0u8, 0u8, 0u8, 0u8, 0u8, 0u8, 0u8, 0u8, 0u8, 1u8]
    }

    open spec fn loopback_prefix_spec() -> u8 {
        128
    }

    open spec fn loopback_addr_view() -> Seq<u8> {
        seq![0u8, 0u8, 0u8, 0u8, 0u8, 0u8, 0u8, 0u8, 0u8, 0u8, 0u8, 0u8, 0u8, 0u8, 0u8, 1u8]
    }

    proof fn lemma_loopback_wf() {
        assert(prefix_match(
            Ipv6Addr::loopback_net_spec(),
            Ipv6Addr::loopback_prefix_spec(),
            Ipv6Addr::loopback_addr_view(),
        ));
    }

    fn loopback_subnet() -> (s: Subnet<Ipv6Addr>) {
        let network = Ipv6Addr { octets: [0, 0, 0, 0, 0, 0, 0, 0, 0, 0, 0, 0, 0, 0, 0, 1] };
        proof {
            assert(network@ =~= Ipv6Addr::loopback_net_spec());
        }
        Subnet { network, prefix: 128 }
    }

    fn loopback_addr() -> (a: Ipv6Addr) {
        let a = Ipv6Addr { octets: [0, 0, 0, 0, 0, 0, 0, 0, 0, 0, 0, 0, 0, 0, 0, 1] };
        proof {
            assert(a@ =~= Ipv6Addr::loopback_addr_view());
        }
        a
    }

    /// IPv6 local delivery is not implemented yet: nothing is reported
    /// deliverable, pending a real neighbor/address model.
    open spec fn is_deliverable_spec(dst: Seq<u8>, config: Option<(Ipv6Addr, Subnet<Ipv6Addr>)>) -> bool {
        false
    }

    fn is_deliverable(dst: &Ipv6Addr, config: Option<(Ipv6Addr, Subnet<Ipv6Addr>)>) -> (r: bool) {
        false
    }

    open spec fn forwarding_enabled_spec(s: IpLayerState) -> bool {
        s.v6.forward
    }

    fn forwarding_enabled(s: &IpLayerState) -> bool {
        s.v6.forward
    }

    open spec fn table_spec(s: IpLayerState) -> ForwardingTable<Ipv6Addr> {
        s.v6.table
    }

    fn table(s: &IpLayerState) -> &ForwardingTable<Ipv6Addr> {
        &s.v6.table
    }

    proof fn lemma_table_wf(s: IpLayerState) {
    }

    open spec fn device_addr_spec(ctx: Context, device: DeviceId) -> Option<(Ipv6Addr, Subnet<Ipv6Addr>)> {
        if device.id < ctx.devices@.len() {
            ctx.devices@[device.id as int].v6
        } else {
            None
        }
    }

    fn device_addr(ctx: &Context, device: DeviceId) -> Option<(Ipv6Addr, Subnet<Ipv6Addr>)> {
        if device.id < ctx.devices.len() {
            ctx.devices[device.id].v6
        } else {
            None
        }
    }

    proof fn lemma_device_addr_wf(ctx: Context, device: DeviceId) {
    }
}

/// Copies the address into a fresh byte vector, in network order.
pub fn addr_to_bytes<A: IpAddr>(a: &A) -> (v: Vec<u8>)
    ensures
        v@ == a@,
{
    proof {
        a.lemma_view_len();
    }
    let n = A::byte_len();
    let mut v: Vec<u8> = Vec::new();
    let mut i: usize = 0;
    while i < n
        invariant
            i <= n,
            n == A::byte_len_spec(),
            a@.len() == n,
            v@.len() == i,
            forall|j: int| 0 <= j < i ==> v@[j] == a@[j],
        decreases n - i,
    {
        v.push(a.octet(i));
        i += 1;
    }
    proof {
        assert(v@ =~= a@);
    }
    v
}

} // verus!
