//! The receive pipeline: anti-spoof drop, local delivery, forwarding
//! with TTL decrement, and every drop path.

use netstack_core::addr::{Ipv4Addr, Ipv6Addr, Subnet};
use netstack_core::context::{Context, DeviceConfig};
use netstack_core::device::DeviceId;
use netstack_core::forwarding::Destination;
use netstack_core::ip::receive_ip_packet;

fn v4(octets: [u8; 4]) -> Ipv4Addr {
    Ipv4Addr::new(octets)
}

/// A context with one device configured as 10.0.0.100 on 10.0.0.0/24.
fn one_device_context() -> (Context, DeviceId) {
    let mut ctx = Context::new();
    let device = ctx.add_device(DeviceConfig {
        v4: Some((v4([10, 0, 0, 100]), Subnet { network: v4([10, 0, 0, 0]), prefix: 24 })),
        v6: None,
    });
    (ctx, device)
}

/// A v4 packet under this stack's wire layout: TTL, protocol number,
/// source, destination, payload.
fn v4_packet(ttl: u8, proto: u8, src: [u8; 4], dst: [u8; 4], payload: &[u8]) -> Vec<u8> {
    let mut bytes = vec![ttl, proto];
    bytes.extend_from_slice(&src);
    bytes.extend_from_slice(&dst);
    bytes.extend_from_slice(payload);
    bytes
}

fn nothing_happened(ctx: &Context) -> bool {
    ctx.sent_frames.is_empty() && ctx.icmp_deliveries.is_empty()
        && ctx.transport_deliveries.is_empty()
}

#[test]
fn loopback_destination_from_real_device_is_dropped() {
    // inbound packet with destination 127.0.0.1 received on a
    // physical device: dropped, not delivered
    let (mut ctx, device) = one_device_context();
    let packet = v4_packet(64, 17, [192, 0, 2, 1], [127, 0, 0, 1], &[1, 2, 3]);
    receive_ip_packet::<Ipv4Addr>(&mut ctx, device, packet);
    assert!(nothing_happened(&ctx));
}

#[test]
fn packet_for_device_address_is_delivered_to_transport() {
    let (mut ctx, device) = one_device_context();
    let packet = v4_packet(64, 17, [10, 0, 0, 5], [10, 0, 0, 100], &[9, 9, 9]);
    receive_ip_packet::<Ipv4Addr>(&mut ctx, device, packet);

    assert!(ctx.sent_frames.is_empty());
    assert!(ctx.icmp_deliveries.is_empty());
    assert_eq!(ctx.transport_deliveries.len(), 1);
    let delivery = &ctx.transport_deliveries[0];
    assert_eq!(delivery.src, vec![10, 0, 0, 5]);
    assert_eq!(delivery.dst, vec![10, 0, 0, 100]);
    assert_eq!(delivery.body, vec![9, 9, 9]);
}

#[test]
fn icmp_packet_is_delivered_to_icmp_handler() {
    let (mut ctx, device) = one_device_context();
    let packet = v4_packet(64, 1, [10, 0, 0, 5], [10, 0, 0, 100], &[8, 0, 0, 0]);
    receive_ip_packet::<Ipv4Addr>(&mut ctx, device, packet);

    assert!(ctx.transport_deliveries.is_empty());
    assert_eq!(ctx.icmp_deliveries.len(), 1);
    assert_eq!(ctx.icmp_deliveries[0].body, vec![8, 0, 0, 0]);
}

#[test]
fn delivery_wins_even_with_forwarding_enabled_and_route() {
    // local delivery is checked before forwarding
    let (mut ctx, device) = one_device_context();
    ctx.ip.set_forwarding_v4(true);
    ctx.ip.v4.table.add_route(
        Subnet { network: v4([10, 0, 0, 0]), prefix: 8 },
        Destination { next_hop: v4([10, 9, 9, 9]), device },
    );
    let packet = v4_packet(64, 17, [10, 0, 0, 5], [10, 0, 0, 100], &[7]);
    receive_ip_packet::<Ipv4Addr>(&mut ctx, device, packet);

    assert!(ctx.sent_frames.is_empty());
    assert_eq!(ctx.transport_deliveries.len(), 1);
}

#[test]
fn subnet_broadcast_is_delivered() {
    let (mut ctx, device) = one_device_context();
    let packet = v4_packet(64, 17, [10, 0, 0, 5], [10, 0, 0, 255], &[4, 2]);
    receive_ip_packet::<Ipv4Addr>(&mut ctx, device, packet);
    assert_eq!(ctx.transport_deliveries.len(), 1);
}

#[test]
fn global_broadcast_is_delivered() {
    let (mut ctx, device) = one_device_context();
    let packet = v4_packet(64, 17, [10, 0, 0, 5], [255, 255, 255, 255], &[4, 2]);
    receive_ip_packet::<Ipv4Addr>(&mut ctx, device, packet);
    assert_eq!(ctx.transport_deliveries.len(), 1);
}

#[test]
fn unrecognized_protocol_is_dropped() {
    let (mut ctx, device) = one_device_context();
    let packet = v4_packet(64, 99, [10, 0, 0, 5], [10, 0, 0, 100], &[1]);
    receive_ip_packet::<Ipv4Addr>(&mut ctx, device, packet);
    assert!(nothing_happened(&ctx));
}

#[test]
fn malformed_packet_is_dropped() {
    let (mut ctx, device) = one_device_context();
    // shorter than a v4 header (ten bytes)
    receive_ip_packet::<Ipv4Addr>(&mut ctx, device, vec![64, 17, 10, 0]);
    assert!(nothing_happened(&ctx));
}

#[test]
fn forwarding_disabled_drops_even_with_route() {
    let (mut ctx, device) = one_device_context();
    ctx.ip.v4.table.add_route(
        Subnet { network: v4([192, 168, 0, 0]), prefix: 16 },
        Destination { next_hop: v4([192, 168, 0, 1]), device },
    );
    // forwarding stays disabled
    let packet = v4_packet(64, 17, [10, 0, 0, 5], [192, 168, 1, 1], &[1]);
    receive_ip_packet::<Ipv4Addr>(&mut ctx, device, packet);
    assert!(nothing_happened(&ctx));
}

#[test]
fn forwarded_packet_decrements_ttl_and_preserves_bytes() {
    let (mut ctx, inbound) = one_device_context();
    let egress = ctx.add_device(DeviceConfig {
        v4: Some((v4([192, 168, 0, 100]), Subnet { network: v4([192, 168, 0, 0]), prefix: 16 })),
        v6: None,
    });
    ctx.ip.set_forwarding_v4(true);
    ctx.ip.v4.table.add_route(
        Subnet { network: v4([192, 168, 0, 0]), prefix: 16 },
        Destination { next_hop: v4([192, 168, 0, 1]), device: egress },
    );
    let packet = v4_packet(64, 17, [10, 0, 0, 5], [192, 168, 1, 1], &[5, 6, 7]);
    let mut expected = packet.clone();
    expected[0] = 63;

    receive_ip_packet::<Ipv4Addr>(&mut ctx, inbound, packet);

    assert!(ctx.icmp_deliveries.is_empty());
    assert!(ctx.transport_deliveries.is_empty());
    assert_eq!(ctx.sent_frames.len(), 1);
    let frame = &ctx.sent_frames[0];
    assert_eq!(frame.device, egress);
    assert_eq!(frame.next_hop, vec![192, 168, 0, 1]);
    // header and payload byte-identical but for the TTL field
    assert_eq!(frame.bytes, expected);
}

#[test]
fn ttl_one_is_dropped_not_forwarded() {
    // TTL = 1, destination not local, forwarding enabled, route
    // exists: dropped, not forwarded
    let (mut ctx, device) = one_device_context();
    ctx.ip.set_forwarding_v4(true);
    ctx.ip.v4.table.add_route(
        Subnet { network: v4([192, 168, 0, 0]), prefix: 16 },
        Destination { next_hop: v4([192, 168, 0, 1]), device },
    );
    let packet = v4_packet(1, 17, [10, 0, 0, 5], [192, 168, 1, 1], &[1]);
    receive_ip_packet::<Ipv4Addr>(&mut ctx, device, packet);
    assert!(nothing_happened(&ctx));
}

#[test]
fn ttl_zero_is_dropped_not_forwarded() {
    let (mut ctx, device) = one_device_context();
    ctx.ip.set_forwarding_v4(true);
    ctx.ip.v4.table.add_route(
        Subnet { network: v4([192, 168, 0, 0]), prefix: 16 },
        Destination { next_hop: v4([192, 168, 0, 1]), device },
    );
    let packet = v4_packet(0, 17, [10, 0, 0, 5], [192, 168, 1, 1], &[1]);
    receive_ip_packet::<Ipv4Addr>(&mut ctx, device, packet);
    assert!(nothing_happened(&ctx));
}

#[test]
fn no_route_is_dropped() {
    let (mut ctx, device) = one_device_context();
    ctx.ip.set_forwarding_v4(true);
    let packet = v4_packet(64, 17, [10, 0, 0, 5], [203, 0, 113, 80], &[1]);
    receive_ip_packet::<Ipv4Addr>(&mut ctx, device, packet);
    assert!(nothing_happened(&ctx));
}

#[test]
fn v6_local_delivery_is_stubbed_off() {
    // IPv6 local delivery is an explicit stub: nothing is deliverable
    let mut ctx = Context::new();
    let mut dst = [0u8; 16];
    dst[15] = 9;
    let device = ctx.add_device(DeviceConfig {
        v4: None,
        v6: Some((
            Ipv6Addr::new(dst),
            Subnet { network: Ipv6Addr::new([0u8; 16]), prefix: 64 },
        )),
    });
    let mut packet = vec![64u8, 17u8];
    packet.extend_from_slice(&[1u8; 16]);
    packet.extend_from_slice(&dst);
    packet.push(42);
    receive_ip_packet::<Ipv6Addr>(&mut ctx, device, packet);
    assert!(nothing_happened(&ctx));
}

#[test]
fn v6_forwarding_works_per_family() {
    // the shared pipeline forwards v6 traffic once the v6 flag is on
    let mut ctx = Context::new();
    let device = ctx.add_device(DeviceConfig { v4: None, v6: None });
    ctx.ip.set_forwarding_v6(true);
    let mut net = [0u8; 16];
    net[0] = 0x20;
    ctx.ip.v6.table.add_route(
        Subnet { network: Ipv6Addr::new(net), prefix: 8 },
        Destination { next_hop: Ipv6Addr::new([3u8; 16]), device },
    );
    let mut dst = [0u8; 16];
    dst[0] = 0x20;
    dst[15] = 5;
    let mut packet = vec![64u8, 17u8];
    packet.extend_from_slice(&[1u8; 16]);
    packet.extend_from_slice(&dst);
    packet.extend_from_slice(&[7, 8]);
    let mut expected = packet.clone();
    expected[0] = 63;

    receive_ip_packet::<Ipv6Addr>(&mut ctx, device, packet);

    assert_eq!(ctx.sent_frames.len(), 1);
    assert_eq!(ctx.sent_frames[0].bytes, expected);
    assert_eq!(ctx.sent_frames[0].next_hop, vec![3u8; 16]);
}
