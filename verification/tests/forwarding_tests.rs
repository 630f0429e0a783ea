//! Forwarding table behavior: longest-prefix-match lookup, route
//! management, and lookup purity on concrete tables.

use netstack_core::addr::{Ipv4Addr, Subnet};
use netstack_core::device::DeviceId;
use netstack_core::forwarding::{Destination, ForwardingTable};

fn v4(octets: [u8; 4]) -> Ipv4Addr {
    Ipv4Addr::new(octets)
}

fn subnet(octets: [u8; 4], prefix: u8) -> Subnet<Ipv4Addr> {
    Subnet { network: v4(octets), prefix }
}

fn dest(device: usize, next_hop: [u8; 4]) -> Destination<Ipv4Addr> {
    Destination { next_hop: v4(next_hop), device: DeviceId::new(device) }
}

#[test]
fn longest_prefix_match_prefers_more_specific() {
    // routes for 10.0.0.0/24 -> (eth0, 10.0.0.1) and
    // 10.0.0.0/16 -> (eth1, 10.0.0.2); 10.0.0.5 must take the /24
    let mut table: ForwardingTable<Ipv4Addr> = ForwardingTable::new();
    table.add_route(subnet([10, 0, 0, 0], 24), dest(0, [10, 0, 0, 1]));
    table.add_route(subnet([10, 0, 0, 0], 16), dest(1, [10, 0, 0, 2]));

    let found = table.lookup(&v4([10, 0, 0, 5])).expect("a route must match");
    assert_eq!(found.device, DeviceId::new(0));
    assert_eq!(found.next_hop, v4([10, 0, 0, 1]));
}

#[test]
fn longest_prefix_match_order_independent() {
    // the same two routes inserted in the other order give the same
    // answer: lookup is a function of contents, not insertion history
    let mut table: ForwardingTable<Ipv4Addr> = ForwardingTable::new();
    table.add_route(subnet([10, 0, 0, 0], 16), dest(1, [10, 0, 0, 2]));
    table.add_route(subnet([10, 0, 0, 0], 24), dest(0, [10, 0, 0, 1]));

    let found = table.lookup(&v4([10, 0, 0, 5])).expect("a route must match");
    assert_eq!(found.device, DeviceId::new(0));
    assert_eq!(found.next_hop, v4([10, 0, 0, 1]));
}

#[test]
fn lookup_outside_every_subnet_is_no_route() {
    let mut table: ForwardingTable<Ipv4Addr> = ForwardingTable::new();
    table.add_route(subnet([10, 0, 0, 0], 24), dest(0, [10, 0, 0, 1]));

    assert!(table.lookup(&v4([192, 168, 1, 1])).is_none());
}

#[test]
fn lookup_on_empty_table_is_no_route() {
    let table: ForwardingTable<Ipv4Addr> = ForwardingTable::new();
    assert!(table.lookup(&v4([10, 0, 0, 5])).is_none());
}

#[test]
fn lookup_is_pure_on_identical_inputs() {
    let mut table: ForwardingTable<Ipv4Addr> = ForwardingTable::new();
    table.add_route(subnet([10, 0, 0, 0], 8), dest(2, [10, 255, 0, 1]));
    table.add_route(subnet([10, 1, 0, 0], 16), dest(3, [10, 1, 0, 1]));

    let first = table.lookup(&v4([10, 1, 2, 3]));
    let second = table.lookup(&v4([10, 1, 2, 3]));
    assert_eq!(first, second);
    assert_eq!(first.unwrap().device, DeviceId::new(3));
}

#[test]
fn del_route_removes_exactly_that_subnet() {
    let mut table: ForwardingTable<Ipv4Addr> = ForwardingTable::new();
    table.add_route(subnet([10, 0, 0, 0], 24), dest(0, [10, 0, 0, 1]));
    table.add_route(subnet([10, 0, 0, 0], 16), dest(1, [10, 0, 0, 2]));

    table.del_route(subnet([10, 0, 0, 0], 24));

    // with the /24 gone, the /16 takes over
    let found = table.lookup(&v4([10, 0, 0, 5])).expect("the /16 still matches");
    assert_eq!(found.device, DeviceId::new(1));
    assert_eq!(found.next_hop, v4([10, 0, 0, 2]));

    table.del_route(subnet([10, 0, 0, 0], 16));
    assert!(table.lookup(&v4([10, 0, 0, 5])).is_none());
}

#[test]
fn equally_specific_routes_keep_the_earlier_one() {
    let mut table: ForwardingTable<Ipv4Addr> = ForwardingTable::new();
    table.add_route(subnet([10, 0, 0, 0], 24), dest(0, [10, 0, 0, 1]));
    table.add_route(subnet([10, 0, 0, 0], 24), dest(1, [10, 0, 0, 2]));

    let found = table.lookup(&v4([10, 0, 0, 5])).expect("a route must match");
    assert_eq!(found.device, DeviceId::new(0));
}

#[test]
fn zero_prefix_matches_everything() {
    let mut table: ForwardingTable<Ipv4Addr> = ForwardingTable::new();
    table.add_route(subnet([0, 0, 0, 0], 0), dest(7, [192, 0, 2, 1]));

    let found = table.lookup(&v4([203, 0, 113, 9])).expect("default route matches all");
    assert_eq!(found.device, DeviceId::new(7));
}

#[test]
fn partial_byte_prefix_is_honored() {
    // 10.0.0.128/26 covers 10.0.0.128..=10.0.0.191 only
    let mut table: ForwardingTable<Ipv4Addr> = ForwardingTable::new();
    table.add_route(subnet([10, 0, 0, 128], 26), dest(4, [10, 0, 0, 129]));

    assert!(table.lookup(&v4([10, 0, 0, 130])).is_some());
    assert!(table.lookup(&v4([10, 0, 0, 130])).unwrap().device == DeviceId::new(4));
    assert!(table.lookup(&v4([10, 0, 0, 192])).is_none());
}
