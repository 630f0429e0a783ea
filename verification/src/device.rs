//! The device collaborator: link-layer identifiers, the egress entry
//! point, and the per-device address accessor.
//!
//! Physical transmission is outside this layer. Egress here records
//! the frame on the context; a surrounding program performs the send.

use vstd::prelude::*;
use crate::context::{frames_of, icmp_of, same_env, transport_of, Context, Frame, FrameModel};
use crate::family::IpAddr;
use crate::addr::Subnet;

verus! {

/// An identifier for one link-layer device, used as an index into the
/// per-device configuration held by the stack context.
#[derive(Clone, Copy, PartialEq, Eq, Structural, Debug)]
pub struct DeviceId {
    pub id: usize,
}

impl DeviceId {
    pub fn new(id: usize) -> (d: DeviceId)
        ensures
            d.id == id,
    {
        DeviceId { id }
    }
}

/// Hands one fully formed packet to the link layer for transmission on
/// `device` toward `next_hop`: the frame is recorded on the context,
/// asynchronous-fire as far as this layer is concerned.
pub fn send_ip_frame(ctx: &mut Context, device: DeviceId, next_hop: Vec<u8>, bytes: Vec<u8>)
    ensures
        same_env(*old(ctx), *final(ctx)),
        frames_of(*final(ctx)) == frames_of(*old(ctx)).push(
            FrameModel { device, next_hop: next_hop@, bytes: bytes@ },
        ),
        icmp_of(*final(ctx)) == icmp_of(*old(ctx)),
        transport_of(*final(ctx)) == transport_of(*old(ctx)),
{
    ctx.sent_frames.push(Frame { device, next_hop, bytes });
    proof {
        assert(frames_of(*ctx) =~= frames_of(*old(ctx)).push(
            FrameModel { device, next_hop: next_hop@, bytes: bytes@ },
        ));
    }
}

/// The address and subnet currently assigned to `device` for the
/// family `A`, or none while the device is unconfigured.
pub fn get_ip_addr<A: IpAddr>(ctx: &Context, device: DeviceId) -> (r: Option<(A, Subnet<A>)>)
    ensures
        r == A::device_addr_spec(*ctx, device),
{
    A::device_addr(ctx, device)
}

} // verus!
