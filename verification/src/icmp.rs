//! The ICMP collaborator: the hand-off point for ICMP payloads.
//!
//! ICMP processing itself is outside this layer; the hand-off is
//! recorded on the context for a surrounding program to act on.

use vstd::prelude::*;
use crate::context::{frames_of, icmp_of, same_env, transport_of, Context, Delivery, DeliveryModel};
use crate::family::{addr_to_bytes, IpAddr};
use crate::proto::IpProto;

verus! {

/// Hands one ICMP payload, already stripped of its IP header, to the
/// ICMP handler.
pub fn receive_icmp_packet<A: IpAddr>(
    ctx: &mut Context,
    src: A,
    dst: A,
    buffer: Vec<u8>,
) -> (handled: bool)
    ensures
        same_env(*old(ctx), *final(ctx)),
        icmp_of(*final(ctx)) == icmp_of(*old(ctx)).push(
            DeliveryModel { src: src@, dst: dst@, proto: IpProto::Icmp, body: buffer@ },
        ),
        transport_of(*final(ctx)) == transport_of(*old(ctx)),
        frames_of(*final(ctx)) == frames_of(*old(ctx)),
        handled,
{
    let delivery = Delivery {
        src: addr_to_bytes(&src),
        dst: addr_to_bytes(&dst),
        proto: IpProto::Icmp,
        body: buffer,
    };
    ctx.icmp_deliveries.push(delivery);
    proof {
        assert(icmp_of(*ctx) =~= icmp_of(*old(ctx)).push(
            DeliveryModel { src: src@, dst: dst@, proto: IpProto::Icmp, body: buffer@ },
        ));
    }
    true
}

} // verus!
