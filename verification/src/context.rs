//! The stack context: the IP layer state together with models of the
//! collaborators the IP layer drives.
//!
//! The device, transport and ICMP collaborators are outside this layer.
//! The context records what the IP layer hands them: every frame passed
//! to device egress and every payload dispatched to the ICMP or generic
//! transport handler, in order. A surrounding program drains these
//! records and performs the actual I/O.

use vstd::prelude::*;
use crate::addr::{Ipv4Addr, Ipv6Addr, Subnet};
use crate::device::DeviceId;
use crate::proto::IpProto;
use crate::state::{same_state, IpLayerState};

verus! {

/// The addresses assigned to one device, per address family: the
/// device's own address and the subnet it sits on, or none while the
/// family is unconfigured.
#[derive(Clone, Copy, PartialEq, Eq, Debug)]
pub struct DeviceConfig {
    pub v4: Option<(Ipv4Addr, Subnet<Ipv4Addr>)>,
    pub v6: Option<(Ipv6Addr, Subnet<Ipv6Addr>)>,
}

/// One frame handed to device egress: the device to send on, the
/// next-hop address in network order, and the full packet bytes.
#[derive(Clone, PartialEq, Eq, Debug)]
pub struct Frame {
    pub device: DeviceId,
    pub next_hop: Vec<u8>,
    pub bytes: Vec<u8>,
}

/// One payload handed to a protocol handler: source and destination
/// addresses in network order, the protocol, and the payload bytes.
#[derive(Clone, PartialEq, Eq, Debug)]
pub struct Delivery {
    pub src: Vec<u8>,
    pub dst: Vec<u8>,
    pub proto: IpProto,
    pub body: Vec<u8>,
}

/// The mathematical content of a `Frame`.
pub ghost struct FrameModel {
    pub device: DeviceId,
    pub next_hop: Seq<u8>,
    pub bytes: Seq<u8>,
}

/// The mathematical content of a `Delivery`.
pub ghost struct DeliveryModel {
    pub src: Seq<u8>,
    pub dst: Seq<u8>,
    pub proto: IpProto,
    pub body: Seq<u8>,
}

impl View for Frame {
    type V = FrameModel;

    open spec fn view(&self) -> FrameModel {
        FrameModel { device: self.device, next_hop: self.next_hop@, bytes: self.bytes@ }
    }
}

impl View for Delivery {
    type V = DeliveryModel;

    open spec fn view(&self) -> DeliveryModel {
        DeliveryModel { src: self.src@, dst: self.dst@, proto: self.proto, body: self.body@ }
    }
}

/// One stack instance: the IP layer state, the per-device address
/// configuration, and the record of everything handed to the device,
/// ICMP and transport collaborators.
pub struct Context {
    pub ip: IpLayerState,
    pub devices: Vec<DeviceConfig>,
    pub sent_frames: Vec<Frame>,
    pub icmp_deliveries: Vec<Delivery>,
    pub transport_deliveries: Vec<Delivery>,
}

/// The frames handed to device egress so far, oldest first.
pub open spec fn frames_of(ctx: Context) -> Seq<FrameModel> {
    ctx.sent_frames@.map_values(|f: Frame| f@)
}

/// The payloads handed to the ICMP handler so far, oldest first.
pub open spec fn icmp_of(ctx: Context) -> Seq<DeliveryModel> {
    ctx.icmp_deliveries@.map_values(|d: Delivery| d@)
}

/// The payloads handed to the generic transport handler so far.
pub open spec fn transport_of(ctx: Context) -> Seq<DeliveryModel> {
    ctx.transport_deliveries@.map_values(|d: Delivery| d@)
}

/// The two contexts agree on IP layer state and device configuration.
pub open spec fn same_env(pre: Context, post: Context) -> bool {
    same_state(pre.ip, post.ip) && post.devices@ == pre.devices@
}

/// The two contexts agree on everything handed to the collaborators.
pub open spec fn same_logs(pre: Context, post: Context) -> bool {
    &&& frames_of(post) == frames_of(pre)
    &&& icmp_of(post) == icmp_of(pre)
    &&& transport_of(post) == transport_of(pre)
}

/// Nothing observable distinguishes the two contexts.
pub open spec fn same_context(pre: Context, post: Context) -> bool {
    same_env(pre, post) && same_logs(pre, post)
}

impl DeviceConfig {
    pub open spec fn wf(self) -> bool {
        &&& (self.v4 matches Some(c) ==> c.1.prefix <= 32)
        &&& (self.v6 matches Some(c) ==> c.1.prefix <= 128)
    }

    /// A device with no address assigned for either family.
    pub fn unconfigured() -> (c: DeviceConfig)
        ensures
            c.v4 is None,
            c.v6 is None,
            c.wf(),
    {
        DeviceConfig { v4: None, v6: None }
    }
}

impl Context {
    pub open spec fn wf(self) -> bool {
        &&& self.ip.wf()
        &&& forall|i: int| 0 <= i < self.devices@.len() ==> (#[trigger] self.devices@[i]).wf()
    }

    /// A fresh stack context: forwarding disabled, no routes, no
    /// devices, nothing handed to any collaborator yet.
    pub fn new() -> (ctx: Context)
        ensures
            ctx.wf(),
            !ctx.ip.v4.forward,
            !ctx.ip.v6.forward,
            ctx.ip.v4.table@.len() == 0,
            ctx.ip.v6.table@.len() == 0,
            ctx.devices@.len() == 0,
            frames_of(ctx).len() == 0,
            icmp_of(ctx).len() == 0,
            transport_of(ctx).len() == 0,
    {
        Context {
            ip: IpLayerState::new(),
            devices: Vec::new(),
            sent_frames: Vec::new(),
            icmp_deliveries: Vec::new(),
            transport_deliveries: Vec::new(),
        }
    }

    /// Registers one more device with the given address configuration
    /// and returns its identifier.
    pub fn add_device(&mut self, config: DeviceConfig) -> (d: DeviceId)
        requires
            config.wf(),
        ensures
            d.id == old(self).devices@.len(),
            final(self).devices@ == old(self).devices@.push(config),
            same_state(old(self).ip, final(self).ip),
            same_logs(*old(self), *final(self)),
            old(self).wf() ==> final(self).wf(),
    {
        let id = self.devices.len();
        self.devices.push(config);
        DeviceId { id }
    }
}

} // verus!
