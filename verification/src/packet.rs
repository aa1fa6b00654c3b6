//! Byte-level view of one outbound packet.
//!
//! A packet is a plain byte buffer; the spec functions here read the fields
//! the classifier consults — Ethernet ether-type, IPv4 addresses and protocol
//! id, transport ports — and the executable readers are verified against
//! them. Every read is guarded by an explicit length check; a buffer too
//! short for a header simply fails the corresponding `has_*` predicate.

use vstd::prelude::*;

verus! {

/// Length of an Ethernet header.
pub const ETH_HDR_LEN: usize = 14;

/// Length of an IPv4 header without options, which is all this parser reads.
pub const IPV4_HDR_LEN: usize = 20;

/// Length of a TCP header without options.
pub const TCP_HDR_LEN: usize = 20;

/// Length of a UDP header.
pub const UDP_HDR_LEN: usize = 8;

/// Ether-type of IPv4.
pub const ETHERTYPE_IPV4: u16 = 0x0800;

/// IPv4 protocol id of TCP.
pub const IP_PROTO_TCP: u8 = 6;

/// IPv4 protocol id of UDP.
pub const IP_PROTO_UDP: u8 = 17;

/// The 16-bit big-endian integer at offset `i`.
pub open spec fn be16_at(b: Seq<u8>, i: int) -> int {
    b[i] * 256 + b[i + 1]
}

/// The 32-bit big-endian integer at offset `i`.
pub open spec fn be32_at(b: Seq<u8>, i: int) -> int {
    ((b[i] * 256 + b[i + 1]) * 256 + b[i + 2]) * 256 + b[i + 3]
}

/// The buffer holds a complete Ethernet header.
pub open spec fn has_eth_header(b: Seq<u8>) -> bool {
    b.len() >= ETH_HDR_LEN
}

/// The Ethernet ether-type field.
pub open spec fn ether_type_of(b: Seq<u8>) -> int {
    be16_at(b, 12)
}

/// The buffer is an IPv4 frame: complete Ethernet header, IPv4 ether-type.
pub open spec fn is_ipv4(b: Seq<u8>) -> bool {
    has_eth_header(b) && ether_type_of(b) == ETHERTYPE_IPV4
}

/// The buffer holds a complete IPv4 header after the Ethernet header.
pub open spec fn has_ipv4_header(b: Seq<u8>) -> bool {
    b.len() >= ETH_HDR_LEN + IPV4_HDR_LEN
}

/// The IPv4 protocol id field.
pub open spec fn protocol_of(b: Seq<u8>) -> u8 {
    b[ETH_HDR_LEN + 9]
}

/// The IPv4 source address.
pub open spec fn src_addr_of(b: Seq<u8>) -> int {
    be32_at(b, ETH_HDR_LEN + 12)
}

/// The IPv4 destination address.
pub open spec fn dst_addr_of(b: Seq<u8>) -> int {
    be32_at(b, ETH_HDR_LEN + 16)
}

/// The protocol id names one of the two transports the classifier knows.
pub open spec fn is_tcp_or_udp(p: u8) -> bool {
    p == IP_PROTO_TCP || p == IP_PROTO_UDP
}

/// Length of the transport header that the protocol id calls for.
pub open spec fn transport_hdr_len(p: u8) -> int {
    if p == IP_PROTO_TCP {
        TCP_HDR_LEN as int
    } else {
        UDP_HDR_LEN as int
    }
}

/// The buffer holds the complete transport header its protocol id calls for.
pub open spec fn has_transport_header(b: Seq<u8>) -> bool {
    b.len() >= ETH_HDR_LEN + IPV4_HDR_LEN + transport_hdr_len(protocol_of(b))
}

/// The transport source port (TCP and UDP lay it out identically).
pub open spec fn sport_of(b: Seq<u8>) -> int {
    be16_at(b, ETH_HDR_LEN + IPV4_HDR_LEN)
}

/// The transport destination port.
pub open spec fn dport_of(b: Seq<u8>) -> int {
    be16_at(b, ETH_HDR_LEN + IPV4_HDR_LEN + 2)
}

/// Read the 16-bit big-endian integer at offset `i`.
pub fn read_be16(buf: &[u8], i: usize) -> (r: u16)
    requires
        i + 2 <= buf@.len(),
    ensures
        r == be16_at(buf@, i as int),
{
    let hi = buf[i];
    let lo = buf[i + 1];
    (hi as u16) * 256 + (lo as u16)
}

/// Read the 32-bit big-endian integer at offset `i`.
pub fn read_be32(buf: &[u8], i: usize) -> (r: u32)
    requires
        i + 4 <= buf@.len(),
    ensures
        r == be32_at(buf@, i as int),
{
    let b0 = buf[i];
    let b1 = buf[i + 1];
    let b2 = buf[i + 2];
    let b3 = buf[i + 3];
    (((b0 as u32) * 256 + (b1 as u32)) * 256 + (b2 as u32)) * 256 + (b3 as u32)
}

} // verus!
