//! The IP layer entry points: receiving a packet from a device,
//! deciding between local delivery and forwarding, dispatching to a
//! protocol handler, and sending packets out.
//!
//! Each entry point's contract is a transition predicate relating the
//! context before the call to the context after it: what was handed to
//! which collaborator, and that the receive and send paths themselves
//! never touch the routing state.

use vstd::prelude::*;
use crate::addr::prefix_match;
use crate::context::{
    frames_of, icmp_of, same_context, same_env, transport_of, Context, DeliveryModel,
    FrameModel,
};
use crate::device::{send_ip_frame, DeviceId};
use crate::family::{addr_to_bytes, IpAddr};
use crate::forwarding::{entry_matches, lookup_spec, Destination, ForwardingEntry};
use crate::proto::{proto_from_number_spec, proto_number_spec, IpProto};
use crate::state::IpLayerState;
use crate::wire::{
    body_of, dst_of, encap_bytes, encapsulate, extract_body, parse, parse_ok, proto_of, src_of,
    ttl_of,
};

verus! {

/// The TTL (hop limit) a freshly built outbound packet starts with.
pub const DEFAULT_TTL: u8 = 64;

/// Failures the send paths surface to their caller.
#[derive(Clone, Copy, PartialEq, Eq, Structural, Debug)]
pub enum SendError {
    /// No route to the destination satisfies the request.
    NoRouteToHost,
}

/// Whether `dst` lies inside the loopback subnet of family `A`.
pub open spec fn in_loopback_subnet<A: IpAddr>(dst: Seq<u8>) -> bool {
    prefix_match(A::loopback_net_spec(), A::loopback_prefix_spec(), dst)
}

/// What protocol dispatch does: the payload goes to the ICMP handler
/// when the protocol is ICMP and to the generic transport entry point
/// otherwise; nothing else changes.
pub open spec fn dispatch_transition(
    pre: Context,
    post: Context,
    proto: IpProto,
    src: Seq<u8>,
    dst: Seq<u8>,
    body: Seq<u8>,
) -> bool {
    &&& same_env(pre, post)
    &&& frames_of(post) == frames_of(pre)
    &&& match proto {
        IpProto::Icmp => {
            &&& icmp_of(post) == icmp_of(pre).push(DeliveryModel { src, dst, proto, body })
            &&& transport_of(post) == transport_of(pre)
        },
        _ => {
            &&& transport_of(post) == transport_of(pre).push(
                DeliveryModel { src, dst, proto, body },
            )
            &&& icmp_of(post) == icmp_of(pre)
        },
    }
}

/// Routes one received payload to the handler its protocol selects.
pub fn dispatch_receive_ip_packet<A: IpAddr>(
    ctx: &mut Context,
    proto: IpProto,
    src: A,
    dst: A,
    buffer: Vec<u8>,
) -> (handled: bool)
    ensures
        dispatch_transition(*old(ctx), *final(ctx), proto, src@, dst@, buffer@),
        handled,
{
    match proto {
        IpProto::Icmp => crate::icmp::receive_icmp_packet(ctx, src, dst, buffer),
        _ => crate::transport::receive_ip_packet(ctx, src, dst, proto, buffer),
    }
}

/// Whether a packet to `dst`, arriving on `device`, is deliverable to
/// this host: the destination equals the device's address, the
/// device subnet's broadcast address, or (IPv4) the global broadcast
/// address.
pub fn deliver<A: IpAddr>(ctx: &Context, device: DeviceId, dst: &A) -> (r: bool)
    requires
        ctx.wf(),
    ensures
        r == A::is_deliverable_spec(dst@, A::device_addr_spec(*ctx, device)),
{
    proof {
        A::lemma_device_addr_wf(*ctx, device);
    }
    let config = A::device_addr(ctx, device);
    A::is_deliverable(dst, config)
}

/// Looks up the route to `dst` in the family's forwarding table.
pub fn lookup_route<A: IpAddr>(state: &IpLayerState, dst: &A) -> (r: Option<Destination<A>>)
    requires
        state.wf(),
    ensures
        r == lookup_spec(A::table_spec(*state)@, dst@),
{
    proof {
        A::lemma_table_wf(*state);
        assert(A::table_spec(*state).wf());
    }
    let table = A::table(state);
    table.lookup(dst)
}

/// What `forward` yields: a destination exactly when forwarding is
/// enabled for the family and the table holds a route.
pub open spec fn forward_spec<A: IpAddr>(s: IpLayerState, dst: Seq<u8>) -> Option<
    Destination<A>,
> {
    if A::forwarding_enabled_spec(s) {
        lookup_spec(A::table_spec(s)@, dst)
    } else {
        None
    }
}

/// Whether to forward a packet to `dst`, and if so to whom. No side
/// effects.
pub fn forward<A: IpAddr>(ctx: &Context, dst: &A) -> (r: Option<Destination<A>>)
    requires
        ctx.wf(),
    ensures
        r == forward_spec::<A>(ctx.ip, dst@),
{
    if A::forwarding_enabled(&ctx.ip) {
        lookup_route::<A>(&ctx.ip, dst)
    } else {
        None
    }
}

/// What receiving the frame payload `b` on `device` does, for every
/// outcome of parsing and classification:
/// - a packet that does not parse is dropped;
/// - a packet for a loopback destination, arriving from a real link,
///   is dropped (anti-spoof);
/// - a locally deliverable packet is handed to protocol dispatch with
///   the header stripped, or dropped when its protocol number is not
///   recognized;
/// - otherwise, with forwarding enabled and a route found, a packet
///   whose TTL exceeds one goes to device egress bytes-identical but
///   for the decremented TTL field, and is dropped on TTL one or zero;
/// - otherwise the packet is dropped.
pub open spec fn receive_transition<A: IpAddr>(
    pre: Context,
    post: Context,
    device: DeviceId,
    b: Seq<u8>,
) -> bool {
    if !parse_ok::<A>(b) {
        same_context(pre, post)
    } else {
        let src = src_of::<A>(b);
        let dst = dst_of::<A>(b);
        if in_loopback_subnet::<A>(dst) {
            same_context(pre, post)
        } else if A::is_deliverable_spec(dst, A::device_addr_spec(pre, device)) {
            match proto_from_number_spec(proto_of(b)) {
                Some(p) => dispatch_transition(pre, post, p, src, dst, body_of::<A>(b)),
                None => same_context(pre, post),
            }
        } else {
            match forward_spec::<A>(pre.ip, dst) {
                Some(dest) => {
                    if ttl_of(b) > 1 {
                        &&& same_env(pre, post)
                        &&& frames_of(post) == frames_of(pre).push(
                            FrameModel {
                                device: dest.device,
                                next_hop: dest.next_hop@,
                                bytes: b.update(0, (ttl_of(b) - 1) as u8),
                            },
                        )
                        &&& icmp_of(post) == icmp_of(pre)
                        &&& transport_of(post) == transport_of(pre)
                    } else {
                        same_context(pre, post)
                    }
                },
                None => same_context(pre, post),
            }
        }
    }
}

/// Receives one IP packet of family `A` from `device`.
pub fn receive_ip_packet<A: IpAddr>(ctx: &mut Context, device: DeviceId, buffer: Vec<u8>)
    requires
        old(ctx).wf(),
    ensures
        final(ctx).wf(),
        same_env(*old(ctx), *final(ctx)),
        receive_transition::<A>(*old(ctx), *final(ctx), device, buffer@),
{
    let packet = match parse::<A>(&buffer) {
        Some(p) => p,
        None => {
            // a malformed packet is dropped silently; generating an
            // ICMP error here is a known gap
            return;
        },
    };
    proof {
        A::lemma_loopback_wf();
    }
    let loopback = A::loopback_subnet();
    if loopback.contains(&packet.dst) {
        // a packet from a real link claiming a loopback destination is
        // illegitimate: drop it (anti-spoof)
        return;
    }
    if deliver::<A>(ctx, device, &packet.dst) {
        match IpProto::from_number(packet.proto) {
            Ok(proto) => {
                let body = extract_body::<A>(&buffer);
                dispatch_receive_ip_packet::<A>(ctx, proto, packet.src, packet.dst, body);
            },
            Err(_) => {
                // unrecognized protocol number: dropped
            },
        }
    } else {
        match forward::<A>(ctx, &packet.dst) {
            Some(dest) => {
                if packet.ttl > 1 {
                    let mut buffer = buffer;
                    buffer[0] = packet.ttl - 1;
                    send_ip_frame(ctx, dest.device, addr_to_bytes(&dest.next_hop), buffer);
                } else {
                    // TTL would expire: dropped, never decremented
                    // below zero; no ICMP Time Exceeded is generated
                }
            },
            None => {
                // forwarding disabled or no route to the destination
            },
        }
    }
}

/// The address of the interface a route to `remote` would egress
/// through: the looked-up route's device address, or none when there
/// is no route or the device has no address for the family.
pub fn local_address_for_remote<A: IpAddr>(ctx: &Context, remote: &A) -> (r: Option<A>)
    requires
        ctx.wf(),
    ensures
        match lookup_spec::<A>(A::table_spec(ctx.ip)@, remote@) {
            Some(dest) => match A::device_addr_spec(*ctx, dest.device) {
                Some(c) => r == Some(c.0),
                None => r is None,
            },
            None => r is None,
        },
{
    let route = match lookup_route::<A>(&ctx.ip, remote) {
        Some(d) => d,
        None => {
            return None;
        },
    };
    match A::device_addr(ctx, route.device) {
        Some((addr, _)) => Some(addr),
        None => None,
    }
}

/// Whether `addr` belongs to one of this host's interfaces. Address
/// ownership tracking is not implemented yet: every address is
/// reported as not local.
#[allow(unused_variables)]
pub fn is_local_addr<A: IpAddr>(ctx: &Context, addr: &A) -> (r: bool)
    ensures
        !r,
{
    false
}

/// What the device-specific send does: one frame goes to egress on
/// `device` toward `next_hop`, carrying `body` encapsulated under a
/// header with the given source, destination and protocol and the
/// default TTL; nothing else changes.
pub open spec fn send_from_device_transition<A: IpAddr>(
    pre: Context,
    post: Context,
    device: DeviceId,
    src: Seq<u8>,
    dst: Seq<u8>,
    next_hop: Seq<u8>,
    proto: IpProto,
    body: Seq<u8>,
) -> bool {
    &&& same_env(pre, post)
    &&& frames_of(post) == frames_of(pre).push(
        FrameModel {
            device,
            next_hop,
            bytes: encap_bytes(src, dst, DEFAULT_TTL, proto_number_spec(proto), body),
        },
    )
    &&& icmp_of(post) == icmp_of(pre)
    &&& transport_of(post) == transport_of(pre)
}

/// Sends an IP packet over a specific device, with the source,
/// destination and next hop already resolved by the caller. This path
/// never handles loopback traffic: neither the source nor the
/// destination may lie in the loopback subnet.
pub fn send_ip_packet_from_device<A: IpAddr>(
    ctx: &mut Context,
    device: DeviceId,
    src: A,
    dst: A,
    next_hop: A,
    proto: IpProto,
    body: Vec<u8>,
)
    requires
        !in_loopback_subnet::<A>(src@),
        !in_loopback_subnet::<A>(dst@),
    ensures
        same_env(*old(ctx), *final(ctx)),
        send_from_device_transition::<A>(
            *old(ctx),
            *final(ctx),
            device,
            src@,
            dst@,
            next_hop@,
            proto,
            body@,
        ),
{
    let frame = encapsulate(&src, &dst, DEFAULT_TTL, proto.number(), body);
    send_ip_frame(ctx, device, addr_to_bytes(&next_hop), frame);
}

/// Whether the egress device of route `e` owns the source address
/// `src`: the device's assigned address for the family equals it.
pub open spec fn entry_owned<A: IpAddr>(pre: Context, e: ForwardingEntry<A>, src: Seq<u8>) -> bool {
    A::device_addr_spec(pre, e.dest.device) matches Some(c) && c.0@ == src
}

/// The route a source-constrained lookup selects: among the routes
/// whose subnet contains `dst` and whose egress device owns `src`, the
/// one with the longest prefix, earliest on a tie.
pub open spec fn best_owned_match<A: IpAddr>(
    pre: Context,
    entries: Seq<ForwardingEntry<A>>,
    dst: Seq<u8>,
    src: Seq<u8>,
) -> Option<ForwardingEntry<A>>
    decreases entries.len(),
{
    if entries.len() == 0 {
        None::<ForwardingEntry<A>>
    } else {
        let prev = best_owned_match(pre, entries.drop_last(), dst, src);
        let e = entries.last();
        if entry_matches(e, dst) && entry_owned(pre, e, src) && (prev is None
            || prev->Some_0.subnet.prefix < e.subnet.prefix) {
            Some(e)
        } else {
            prev
        }
    }
}

/// What a source-constrained lookup of `dst` yields.
pub open spec fn lookup_owned_spec<A: IpAddr>(pre: Context, dst: Seq<u8>, src: Seq<u8>) -> Option<
    Destination<A>,
> {
    match best_owned_match::<A>(pre, A::table_spec(pre.ip)@, dst, src) {
        Some(e) => Some(e.dest),
        None => None,
    }
}

/// Looks up the route to `dst` restricted to routes whose egress
/// device owns `src`.
fn lookup_route_from<A: IpAddr>(ctx: &Context, src: &A, dst: &A) -> (r: Option<Destination<A>>)
    requires
        ctx.wf(),
    ensures
        r == lookup_owned_spec::<A>(*ctx, dst@, src@),
{
    proof {
        A::lemma_table_wf(ctx.ip);
        assert(A::table_spec(ctx.ip).wf());
    }
    let table = A::table(&ctx.ip);
    let ghost entries = A::table_spec(ctx.ip)@;
    let mut best: Option<ForwardingEntry<A>> = None;
    let mut i: usize = 0;
    while i < table.entries.len()
        invariant
            i <= entries.len(),
            table.entries@ == entries,
            entries == A::table_spec(ctx.ip)@,
            A::table_spec(ctx.ip).wf(),
            ctx.wf(),
            best == best_owned_match::<A>(*ctx, entries.subrange(0, i as int), dst@, src@),
        decreases entries.len() - i,
    {
        let e = table.entries[i];
        proof {
            assert(e == A::table_spec(ctx.ip).entries@[i as int]);
            assert(e.subnet.wf());
        }
        let matched = e.subnet.contains(dst);
        let owned = match A::device_addr(ctx, e.dest.device) {
            Some((a, _)) => a.addr_eq(src),
            None => false,
        };
        let replace = matched && owned && match best {
            None => true,
            Some(b) => e.subnet.prefix > b.subnet.prefix,
        };
        proof {
            let sub = entries.subrange(0, i + 1);
            assert(sub.drop_last() =~= entries.subrange(0, i as int));
            assert(sub.last() == entries[i as int]);
        }
        if replace {
            best = Some(e);
        }
        i += 1;
    }
    proof {
        assert(entries.subrange(0, entries.len() as int) =~= entries);
    }
    match best {
        Some(e) => Some(e.dest),
        None => None,
    }
}

/// What the source-constrained send does: with a route to `dst` whose
/// egress device owns `src`, exactly the device-specific send; with
/// none, a NoRouteToHost failure and no observable effect.
pub open spec fn send_from_transition<A: IpAddr>(
    pre: Context,
    post: Context,
    src: Seq<u8>,
    dst: Seq<u8>,
    proto: IpProto,
    body: Seq<u8>,
    r: Result<(), SendError>,
) -> bool {
    match lookup_owned_spec::<A>(pre, dst, src) {
        Some(dest) => r is Ok && send_from_device_transition::<A>(
            pre,
            post,
            dest.device,
            src,
            dst,
            dest.next_hop@,
            proto,
            body,
        ),
        None => r == Err::<(), SendError>(SendError::NoRouteToHost) && same_context(pre, post),
    }
}

/// Sends an IP packet constrained to the explicit source address
/// `src`: the route must egress over the interface that owns `src`,
/// and the send fails with `NoRouteToHost` when no such route exists.
pub fn send_ip_packet_from<A: IpAddr>(
    ctx: &mut Context,
    src: A,
    dst: A,
    proto: IpProto,
    body: Vec<u8>,
) -> (r: Result<(), SendError>)
    requires
        old(ctx).wf(),
        !in_loopback_subnet::<A>(src@),
        !in_loopback_subnet::<A>(dst@),
    ensures
        final(ctx).wf(),
        same_env(*old(ctx), *final(ctx)),
        send_from_transition::<A>(*old(ctx), *final(ctx), src@, dst@, proto, body@, r),
{
    match lookup_route_from::<A>(ctx, &src, &dst) {
        Some(dest) => {
            send_ip_packet_from_device::<A>(ctx, dest.device, src, dst, dest.next_hop, proto, body);
            Ok(())
        },
        None => Err(SendError::NoRouteToHost),
    }
}

/// Routes to a non-loopback destination must be usable by the general
/// send: the looked-up egress device has an address for the family,
/// and that address is no loopback address. Violating this marks a
/// route-management bug, not a runtime condition.
pub open spec fn route_source_ok<A: IpAddr>(pre: Context, dst: Seq<u8>) -> bool {
    lookup_spec::<A>(A::table_spec(pre.ip)@, dst) matches Some(dest)
        ==> (A::device_addr_spec(pre, dest.device) matches Some(c) && !in_loopback_subnet::<A>(
        c.0@,
    ))
}

/// Sends an IP packet to `dst`, building the payload once the source
/// address is known.
///
/// A loopback destination never touches the forwarding table and
/// never reaches device egress: the payload, built with the loopback
/// address as source, goes straight to protocol dispatch, as if the
/// packet had just been parsed off a loopback pseudo-device. Any
/// other destination is routed; with no route the send fails with
/// `NoRouteToHost`, surfaced to the caller.
pub fn send_ip_packet<A: IpAddr, F: FnOnce(A) -> Vec<u8>>(
    ctx: &mut Context,
    dst: A,
    proto: IpProto,
    get_body: F,
) -> (r: Result<(), SendError>)
    requires
        old(ctx).wf(),
        in_loopback_subnet::<A>(dst@) ==> forall|a: A|
            a@ == A::loopback_addr_view() ==> #[trigger] call_requires(get_body, (a,)),
        !in_loopback_subnet::<A>(dst@) ==> route_source_ok::<A>(*old(ctx), dst@),
        !in_loopback_subnet::<A>(dst@) ==> (lookup_spec::<A>(
            A::table_spec(old(ctx).ip)@,
            dst@,
        ) matches Some(dest) ==> (A::device_addr_spec(*old(ctx), dest.device) matches Some(c)
            ==> call_requires(get_body, (c.0,)))),
    ensures
        final(ctx).wf(),
        same_env(*old(ctx), *final(ctx)),
        in_loopback_subnet::<A>(dst@) ==> r is Ok && exists|a: A, b: Vec<u8>|
            {
                &&& a@ == A::loopback_addr_view()
                &&& #[trigger] call_ensures(get_body, (a,), b)
                &&& dispatch_transition(
                    *old(ctx),
                    *final(ctx),
                    proto,
                    A::loopback_addr_view(),
                    dst@,
                    b@,
                )
            },
        !in_loopback_subnet::<A>(dst@) ==> match lookup_spec::<A>(
            A::table_spec(old(ctx).ip)@,
            dst@,
        ) {
            Some(dest) => A::device_addr_spec(*old(ctx), dest.device) matches Some(c)
                ==> r is Ok && exists|b: Vec<u8>|
                {
                    &&& #[trigger] call_ensures(get_body, (c.0,), b)
                    &&& send_from_device_transition::<A>(
                        *old(ctx),
                        *final(ctx),
                        dest.device,
                        c.0@,
                        dst@,
                        dest.next_hop@,
                        proto,
                        b@,
                    )
                },
            None => r == Err::<(), SendError>(SendError::NoRouteToHost) && same_context(
                *old(ctx),
                *final(ctx),
            ),
        },
{
    proof {
        A::lemma_loopback_wf();
    }
    let loopback = A::loopback_subnet();
    if loopback.contains(&dst) {
        // loopback is handled here, without a device: the packet is
        // injected into dispatch as if it had just been parsed
        let src = A::loopback_addr();
        let body = get_body(src);
        dispatch_receive_ip_packet::<A>(ctx, proto, src, dst, body);
        Ok(())
    } else {
        match lookup_route::<A>(&ctx.ip, &dst) {
            Some(dest) => {
                match A::device_addr(ctx, dest.device) {
                    Some((src, _)) => {
                        let body = get_body(src);
                        send_ip_packet_from_device::<A>(
                            ctx,
                            dest.device,
                            src,
                            dst,
                            dest.next_hop,
                            proto,
                            body,
                        );
                        Ok(())
                    },
                    None => {
                        proof {
                            assert(false);
                        }
                        Err(SendError::NoRouteToHost)
                    },
                }
            },
            None => Err(SendError::NoRouteToHost),
        }
    }
}

} // verus!
