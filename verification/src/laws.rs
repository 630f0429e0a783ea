//! The laws this layer is built around, stated over the transition
//! predicates of the receive and send pipelines and proved once and
//! for all.

use vstd::prelude::*;
use crate::context::{frames_of, icmp_of, same_context, transport_of, Context, FrameModel};
use crate::device::DeviceId;
use crate::family::IpAddr;
use crate::forwarding::{best_match, entry_matches, lookup_spec, ForwardingEntry};
use crate::ip::{
    dispatch_transition, forward_spec, in_loopback_subnet, receive_transition,
    send_from_device_transition, DEFAULT_TTL,
};
use crate::proto::{proto_from_number_spec, proto_number_spec, IpProto};
use crate::state::same_state;
use crate::wire::{
    body_of, dst_of, encap_bytes, lemma_encap_parse_round_trip, parse_ok, proto_of, src_of,
    ttl_of,
};

verus! {

/// A packet whose destination lies in the loopback subnet, arriving
/// from an inbound device, is dropped: never delivered, never
/// forwarded, nothing observable changes.
pub proof fn lemma_loopback_destination_dropped<A: IpAddr>(
    pre: Context,
    post: Context,
    device: DeviceId,
    b: Seq<u8>,
)
    requires
        receive_transition::<A>(pre, post, device, b),
        parse_ok::<A>(b),
        in_loopback_subnet::<A>(dst_of::<A>(b)),
    ensures
        same_context(pre, post),
{
}

/// A packet whose destination is locally deliverable on the inbound
/// device, carrying a recognized protocol, is delivered to that
/// protocol's handler — whatever the forwarding state, which the
/// hypotheses say nothing about.
pub proof fn lemma_local_delivery_regardless_of_forwarding<A: IpAddr>(
    pre: Context,
    post: Context,
    device: DeviceId,
    b: Seq<u8>,
    p: IpProto,
)
    requires
        receive_transition::<A>(pre, post, device, b),
        parse_ok::<A>(b),
        !in_loopback_subnet::<A>(dst_of::<A>(b)),
        A::is_deliverable_spec(dst_of::<A>(b), A::device_addr_spec(pre, device)),
        proto_from_number_spec(proto_of(b)) == Some(p),
    ensures
        dispatch_transition(pre, post, p, src_of::<A>(b), dst_of::<A>(b), body_of::<A>(b)),
{
}

/// A packet that is not locally deliverable is dropped while
/// forwarding is disabled for its family — even when a route to its
/// destination exists, which the hypotheses allow.
pub proof fn lemma_forwarding_disabled_drops<A: IpAddr>(
    pre: Context,
    post: Context,
    device: DeviceId,
    b: Seq<u8>,
)
    requires
        receive_transition::<A>(pre, post, device, b),
        parse_ok::<A>(b),
        !in_loopback_subnet::<A>(dst_of::<A>(b)),
        !A::is_deliverable_spec(dst_of::<A>(b), A::device_addr_spec(pre, device)),
        !A::forwarding_enabled_spec(pre.ip),
    ensures
        same_context(pre, post),
{
}

/// A packet on the forwarding path with TTL above one goes to device
/// egress toward the route's next hop, with the TTL decremented by
/// exactly one and every other byte preserved identically.
pub proof fn lemma_forwarded_bytes_preserved<A: IpAddr>(
    pre: Context,
    post: Context,
    device: DeviceId,
    b: Seq<u8>,
)
    requires
        receive_transition::<A>(pre, post, device, b),
        parse_ok::<A>(b),
        !in_loopback_subnet::<A>(dst_of::<A>(b)),
        !A::is_deliverable_spec(dst_of::<A>(b), A::device_addr_spec(pre, device)),
        forward_spec::<A>(pre.ip, dst_of::<A>(b)) is Some,
        ttl_of(b) > 1,
    ensures
        frames_of(post) == frames_of(pre).push(
            FrameModel {
                device: forward_spec::<A>(pre.ip, dst_of::<A>(b))->Some_0.device,
                next_hop: forward_spec::<A>(pre.ip, dst_of::<A>(b))->Some_0.next_hop@,
                bytes: b.update(0, (ttl_of(b) - 1) as u8),
            },
        ),
        frames_of(post).last().bytes.len() == b.len(),
        frames_of(post).last().bytes[0] == ttl_of(b) - 1,
        forall|i: int| 0 < i < b.len() ==> frames_of(post).last().bytes[i] == b[i],
        icmp_of(post) == icmp_of(pre),
        transport_of(post) == transport_of(pre),
        same_state(pre.ip, post.ip),
{
}

/// A packet on the forwarding path whose TTL is one or zero is
/// dropped: nothing is sent and nothing is decremented.
pub proof fn lemma_ttl_expiry_drops<A: IpAddr>(
    pre: Context,
    post: Context,
    device: DeviceId,
    b: Seq<u8>,
)
    requires
        receive_transition::<A>(pre, post, device, b),
        parse_ok::<A>(b),
        !in_loopback_subnet::<A>(dst_of::<A>(b)),
        !A::is_deliverable_spec(dst_of::<A>(b), A::device_addr_spec(pre, device)),
        forward_spec::<A>(pre.ip, dst_of::<A>(b)) is Some,
        ttl_of(b) <= 1,
    ensures
        same_context(pre, post),
{
}

/// The receive path never mutates the IP layer state: whatever
/// becomes of a packet, the forwarding flags, the routes and the
/// device configuration after the call are those before it.
pub proof fn lemma_receive_never_touches_routes<A: IpAddr>(
    pre: Context,
    post: Context,
    device: DeviceId,
    b: Seq<u8>,
)
    requires
        receive_transition::<A>(pre, post, device, b),
    ensures
        same_state(pre.ip, post.ip),
        post.devices@ == pre.devices@,
{
}

/// Forwarding-table lookup is a pure function of the table contents
/// and the destination: identical inputs yield the identical result.
pub proof fn lemma_lookup_pure<A: IpAddr>(
    entries1: Seq<ForwardingEntry<A>>,
    entries2: Seq<ForwardingEntry<A>>,
    dst1: Seq<u8>,
    dst2: Seq<u8>,
)
    requires
        entries1 == entries2,
        dst1 == dst2,
    ensures
        lookup_spec::<A>(entries1, dst1) == lookup_spec::<A>(entries2, dst2),
{
}

/// The selected route really matches the destination.
pub proof fn lemma_best_match_sound<A: IpAddr>(entries: Seq<ForwardingEntry<A>>, dst: Seq<u8>)
    ensures
        best_match(entries, dst) matches Some(e) ==> entry_matches(e, dst),
    decreases entries.len(),
{
    if entries.len() > 0 {
        lemma_best_match_sound::<A>(entries.drop_last(), dst);
    }
}

/// When lookup yields no route, no entry's subnet contains the
/// destination.
pub proof fn lemma_no_route_means_no_match<A: IpAddr>(
    entries: Seq<ForwardingEntry<A>>,
    dst: Seq<u8>,
)
    requires
        lookup_spec::<A>(entries, dst) is None,
    ensures
        forall|i: int| 0 <= i < entries.len() ==> !entry_matches(#[trigger] entries[i], dst),
{
    assert forall|i: int| 0 <= i < entries.len() implies !entry_matches(
        #[trigger] entries[i],
        dst,
    ) by {
        if entry_matches(entries[i], dst) {
            lemma_lookup_prefers_more_specific::<A>(entries, dst, i);
        }
    }
}

/// A more specific matching subnet always wins: whenever some route
/// matches the destination, lookup selects a matching route whose
/// prefix is at least as long as that route's.
pub proof fn lemma_lookup_prefers_more_specific<A: IpAddr>(
    entries: Seq<ForwardingEntry<A>>,
    dst: Seq<u8>,
    i: int,
)
    requires
        0 <= i < entries.len(),
        entry_matches(entries[i], dst),
    ensures
        best_match(entries, dst) matches Some(e) && e.subnet.prefix >= entries[i].subnet.prefix
            && entry_matches(e, dst),
    decreases entries.len(),
{
    lemma_best_match_sound::<A>(entries, dst);
    if i < entries.len() - 1 {
        lemma_lookup_prefers_more_specific::<A>(entries.drop_last(), dst, i);
    }
}

/// Sending to a loopback destination leaves the forwarding tables and
/// the device egress log untouched: the payload reaches the protocol
/// handlers exactly as a packet received post-parse would, with the
/// loopback address as its source.
pub proof fn lemma_loopback_send_is_local_receive<A: IpAddr>(
    pre: Context,
    post: Context,
    dst: Seq<u8>,
    proto: IpProto,
    body: Seq<u8>,
)
    requires
        dispatch_transition(pre, post, proto, A::loopback_addr_view(), dst, body),
    ensures
        same_state(pre.ip, post.ip),
        frames_of(post) == frames_of(pre),
{
}

/// Round trip through the send path: the frame the device-specific
/// send emits parses back to the original source, destination,
/// protocol and payload, with the default TTL.
pub proof fn lemma_send_then_parse_round_trip<A: IpAddr>(
    pre: Context,
    post: Context,
    device: DeviceId,
    src: Seq<u8>,
    dst: Seq<u8>,
    next_hop: Seq<u8>,
    proto: IpProto,
    body: Seq<u8>,
)
    requires
        send_from_device_transition::<A>(pre, post, device, src, dst, next_hop, proto, body),
        src.len() == A::byte_len_spec(),
        dst.len() == A::byte_len_spec(),
    ensures
        frames_of(post).len() == frames_of(pre).len() + 1,
        ({
            let sent = frames_of(post).last().bytes;
            &&& parse_ok::<A>(sent)
            &&& src_of::<A>(sent) == src
            &&& dst_of::<A>(sent) == dst
            &&& ttl_of(sent) == DEFAULT_TTL
            &&& proto_of(sent) == proto_number_spec(proto)
            &&& proto_from_number_spec(proto_of(sent)) == Some(proto)
            &&& body_of::<A>(sent) == body
        }),
{
    lemma_encap_parse_round_trip::<A>(src, dst, DEFAULT_TTL, proto_number_spec(proto), body);
    assert(frames_of(post).last().bytes == encap_bytes(
        src,
        dst,
        DEFAULT_TTL,
        proto_number_spec(proto),
        body,
    ));
}

} // verus!
