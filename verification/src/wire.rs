//! The packet codec: header encapsulation on the send path and header
//! parsing on the receive path.
//!
//! The header layout is minimal and family-parameterized: one byte of
//! TTL (hop limit), one byte of protocol number, the source address,
//! the destination address, then the payload. Both families share the
//! one codec; only the address width differs.

use vstd::prelude::*;
use crate::family::{addr_to_bytes, IpAddr};

verus! {

/// The number of header bytes in front of the payload.
pub open spec fn header_len<A: IpAddr>() -> nat {
    2 + 2 * A::byte_len_spec()
}

/// Whether `b` is long enough to hold a header of this family; parsing
/// fails exactly on the packets that are not.
pub open spec fn parse_ok<A: IpAddr>(b: Seq<u8>) -> bool {
    b.len() >= header_len::<A>()
}

/// The TTL (hop limit) field of the packet bytes.
pub open spec fn ttl_of(b: Seq<u8>) -> u8 {
    b[0]
}

/// The raw protocol number field of the packet bytes.
pub open spec fn proto_of(b: Seq<u8>) -> u8 {
    b[1]
}

/// The source address bytes of the packet.
pub open spec fn src_of<A: IpAddr>(b: Seq<u8>) -> Seq<u8> {
    b.subrange(2, 2 + A::byte_len_spec() as int)
}

/// The destination address bytes of the packet.
pub open spec fn dst_of<A: IpAddr>(b: Seq<u8>) -> Seq<u8> {
    b.subrange(2 + A::byte_len_spec() as int, 2 + 2 * A::byte_len_spec() as int)
}

/// The payload bytes of the packet: everything past the header.
pub open spec fn body_of<A: IpAddr>(b: Seq<u8>) -> Seq<u8> {
    b.subrange(header_len::<A>() as int, b.len() as int)
}

/// The bytes that encapsulating `body` under a header produces.
pub open spec fn encap_bytes(
    src: Seq<u8>,
    dst: Seq<u8>,
    ttl: u8,
    proto: u8,
    body: Seq<u8>,
) -> Seq<u8> {
    seq![ttl, proto] + src + dst + body
}

/// The header fields of one parsed packet. A view borrowed from the
/// packet bytes; the payload stays in the buffer it came in.
#[derive(Clone, Copy, PartialEq, Eq, Debug)]
pub struct ParsedPacket<A> {
    pub src: A,
    pub dst: A,
    pub ttl: u8,
    pub proto: u8,
}

/// Parses the buffer as one IP packet of family `A`. Fails exactly on
/// buffers too short to hold a header; the payload is the byte range
/// past the header.
pub fn parse<A: IpAddr>(buffer: &Vec<u8>) -> (r: Option<ParsedPacket<A>>)
    ensures
        r is Some <==> parse_ok::<A>(buffer@),
        r matches Some(p) ==> {
            &&& p.src@ == src_of::<A>(buffer@)
            &&& p.dst@ == dst_of::<A>(buffer@)
            &&& p.ttl == ttl_of(buffer@)
            &&& p.proto == proto_of(buffer@)
        },
{
    proof {
        A::lemma_byte_len_bound();
    }
    let w = A::byte_len();
    if buffer.len() < 2 + 2 * w {
        return None;
    }
    let ttl = buffer[0];
    let proto = buffer[1];
    let src = A::from_bytes(buffer, 2);
    let dst = A::from_bytes(buffer, 2 + w);
    Some(ParsedPacket { src, dst, ttl, proto })
}

/// Encapsulates `body` under a header carrying the given fields: the
/// header is laid down in front of the payload bytes.
pub fn encapsulate<A: IpAddr>(src: &A, dst: &A, ttl: u8, proto: u8, body: Vec<u8>) -> (r: Vec<
    u8,
>)
    ensures
        r@ == encap_bytes(src@, dst@, ttl, proto, body@),
{
    let mut out: Vec<u8> = Vec::new();
    out.push(ttl);
    out.push(proto);
    let mut src_bytes = addr_to_bytes(src);
    out.append(&mut src_bytes);
    let mut dst_bytes = addr_to_bytes(dst);
    out.append(&mut dst_bytes);
    let mut tail = body;
    out.append(&mut tail);
    proof {
        assert(out@ =~= encap_bytes(src@, dst@, ttl, proto, body@));
    }
    out
}

/// Copies the payload out of a packet: the bytes past the header.
pub fn extract_body<A: IpAddr>(buffer: &Vec<u8>) -> (b: Vec<u8>)
    requires
        parse_ok::<A>(buffer@),
    ensures
        b@ == body_of::<A>(buffer@),
{
    proof {
        A::lemma_byte_len_bound();
    }
    let w = A::byte_len();
    let start = 2 + 2 * w;
    let n = buffer.len();
    let mut b: Vec<u8> = Vec::new();
    let mut i: usize = start;
    while i < n
        invariant
            start <= i <= n,
            n == buffer@.len(),
            start == header_len::<A>(),
            b@.len() == i - start,
            forall|j: int| 0 <= j < b@.len() ==> b@[j] == buffer@[start + j],
        decreases n - i,
    {
        b.push(buffer[i]);
        i += 1;
    }
    proof {
        assert(b@ =~= body_of::<A>(buffer@));
    }
    b
}

/// Round trip: parsing the bytes that encapsulation lays down yields
/// back the original source, destination, TTL, protocol and payload.
pub proof fn lemma_encap_parse_round_trip<A: IpAddr>(
    src: Seq<u8>,
    dst: Seq<u8>,
    ttl: u8,
    proto: u8,
    body: Seq<u8>,
)
    requires
        src.len() == A::byte_len_spec(),
        dst.len() == A::byte_len_spec(),
    ensures
        parse_ok::<A>(encap_bytes(src, dst, ttl, proto, body)),
        ttl_of(encap_bytes(src, dst, ttl, proto, body)) == ttl,
        proto_of(encap_bytes(src, dst, ttl, proto, body)) == proto,
        src_of::<A>(encap_bytes(src, dst, ttl, proto, body)) == src,
        dst_of::<A>(encap_bytes(src, dst, ttl, proto, body)) == dst,
        body_of::<A>(encap_bytes(src, dst, ttl, proto, body)) == body,
{
    let b = encap_bytes(src, dst, ttl, proto, body);
    assert(src_of::<A>(b) =~= src);
    assert(dst_of::<A>(b) =~= dst);
    assert(body_of::<A>(b) =~= body);
}

} // verus!
