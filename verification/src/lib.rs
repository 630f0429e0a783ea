//! The Internet Protocol layer of a userspace network stack: packet
//! reception and dispatch, the local-delivery decision, forwarding-table
//! lookup with TTL-gated relay, and outbound packet construction, across
//! IPv4 and IPv6 through one algorithm parameterized by address family.

pub mod addr;
pub mod context;
pub mod device;
pub mod family;
pub mod forwarding;
pub mod icmp;
pub mod ip;
pub mod laws;
pub mod proto;
pub mod state;
pub mod transport;
pub mod wire;
