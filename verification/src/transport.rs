//! The transport collaborator: the generic hand-off point for every
//! recognized protocol other than ICMP.
//!
//! Transport processing (TCP, UDP) is outside this layer; the hand-off
//! is recorded on the context for a surrounding program to act on.

use vstd::prelude::*;
use crate::context::{frames_of, icmp_of, same_env, transport_of, Context, Delivery, DeliveryModel};
use crate::family::{addr_to_bytes, IpAddr};
use crate::proto::IpProto;

verus! {

/// Hands one transport payload, already stripped of its IP header, to
/// the generic transport entry point; reports whether the protocol was
/// handled.
pub fn receive_ip_packet<A: IpAddr>(
    ctx: &mut Context,
    src: A,
    dst: A,
    proto: IpProto,
    buffer: Vec<u8>,
) -> (handled: bool)
    ensures
        same_env(*old(ctx), *final(ctx)),
        transport_of(*final(ctx)) == transport_of(*old(ctx)).push(
            DeliveryModel { src: src@, dst: dst@, proto, body: buffer@ },
        ),
        icmp_of(*final(ctx)) == icmp_of(*old(ctx)),
        frames_of(*final(ctx)) == frames_of(*old(ctx)),
        handled,
{
    let delivery = Delivery {
        src: addr_to_bytes(&src),
        dst: addr_to_bytes(&dst),
        proto,
        body: buffer,
    };
    ctx.transport_deliveries.push(delivery);
    proof {
        assert(transport_of(*ctx) =~= transport_of(*old(ctx)).push(
            DeliveryModel { src: src@, dst: dst@, proto, body: buffer@ },
        ));
    }
    true
}

} // verus!
