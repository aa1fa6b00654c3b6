//! The per-packet classification decision.
//!
//! Given one packet buffer, its mark and the configuration store, the
//! classifier emits exactly one [`Action`]: `Pass` or `Redirect(target)`.
//! Every parse failure, unknown protocol and missing configuration collapses
//! deliberately to `Pass` — the policy fails open, never dropping traffic on
//! uncertainty — and the single way to reach `Redirect` is the explicit match
//! path: not bypassed, well-formed IPv4 TCP/UDP frame, destination equal to
//! the sentinel address, tunnel target configured.

use crate::packet::{
    dport_of, dst_addr_of, has_ipv4_header, has_transport_header, is_ipv4, is_tcp_or_udp,
    protocol_of, read_be16, read_be32, sport_of, src_addr_of, ETHERTYPE_IPV4, ETH_HDR_LEN,
    IPV4_HDR_LEN, IP_PROTO_TCP, IP_PROTO_UDP, TCP_HDR_LEN, UDP_HDR_LEN,
};
use crate::store::ConfigStore;
use crate::store::Table;
use crate::{DEFAULT_SENTINEL, TUN_INDEX_KEY};
use vstd::prelude::*;

verus! {

/// The two-valued outcome of classifying one packet.
#[derive(Clone, Copy, Debug, PartialEq, Eq, Structural)]
pub enum Action {
    /// Let the packet continue on its normal path.
    Pass,
    /// Redirect the packet to the interface with this index.
    Redirect(u32),
}

/// The transport protocol named in a diagnostic record.
#[derive(Clone, Copy, Debug, PartialEq, Eq, Structural)]
pub enum Proto {
    /// The packet carried TCP.
    Tcp,
    /// The packet carried UDP.
    Udp,
}

/// Bounded-size diagnostic record, emitted only on the match path: the
/// five-tuple that matched, and whether the tunnel target was missing at
/// decision time (in which case the packet passed instead of redirecting).
#[derive(Clone, Copy, Debug, PartialEq, Eq, Structural)]
pub struct DiagRecord {
    /// Transport protocol of the matched packet.
    pub proto: Proto,
    /// IPv4 source address.
    pub src: u32,
    /// Transport source port.
    pub sport: u16,
    /// IPv4 destination address.
    pub dst: u32,
    /// Transport destination port.
    pub dport: u16,
    /// The tunnel target was not configured, so the packet passed.
    pub missing_target: bool,
}

/// What one classification call produces: the action, and the diagnostic
/// record if the packet reached the match path.
#[derive(Clone, Copy, Debug, PartialEq, Eq, Structural)]
pub struct Outcome {
    /// The decision for this packet.
    pub action: Action,
    /// The diagnostic record, present exactly on the match path.
    pub diag: Option<DiagRecord>,
}

/// The packet reaches the match path: its mark is not bypassed, it is a
/// complete IPv4 TCP/UDP frame, and its destination is the sentinel address.
pub open spec fn matched(b: Seq<u8>, mark: u32, marks: Map<u32, u32>, sentinel: u32) -> bool {
    &&& !marks.contains_key(mark)
    &&& is_ipv4(b)
    &&& has_ipv4_header(b)
    &&& is_tcp_or_udp(protocol_of(b))
    &&& has_transport_header(b)
    &&& dst_addr_of(b) == sentinel
}

/// The decision: redirect to the configured tunnel target exactly when the
/// packet matches and a target is configured; in every other case — bypassed
/// mark, non-IPv4 frame, truncated header, other protocol, other
/// destination, missing target — pass.
pub open spec fn spec_classify(
    b: Seq<u8>,
    mark: u32,
    marks: Map<u32, u32>,
    params: Map<u32, u32>,
    sentinel: u32,
) -> Action {
    if matched(b, mark, marks, sentinel) && params.contains_key(TUN_INDEX_KEY) {
        Action::Redirect(params[TUN_INDEX_KEY])
    } else {
        Action::Pass
    }
}

/// The diagnostic record owed for a packet: present exactly on the match
/// path, carrying the packet's five-tuple and whether the target was absent.
pub open spec fn spec_diag(
    b: Seq<u8>,
    mark: u32,
    marks: Map<u32, u32>,
    params: Map<u32, u32>,
    sentinel: u32,
) -> Option<DiagRecord> {
    if matched(b, mark, marks, sentinel) {
        Some(
            DiagRecord {
                proto: if protocol_of(b) == IP_PROTO_TCP {
                    Proto::Tcp
                } else {
                    Proto::Udp
                },
                src: src_addr_of(b) as u32,
                sport: sport_of(b) as u16,
                dst: dst_addr_of(b) as u32,
                dport: dport_of(b) as u16,
                missing_target: !params.contains_key(TUN_INDEX_KEY),
            },
        )
    } else {
        None
    }
}

/// Whether this packet's mark exempts it from redirection.
pub fn is_clash(mark: u32, marks: &Table) -> (r: bool)
    requires
        marks.wf(),
    ensures
        r == marks@.contains_key(mark),
{
    marks.get(mark).is_some()
}

/// Classify one packet against the store, with a configurable sentinel
/// address. Returns the action together with the diagnostic record owed on
/// the match path.
pub fn classify(buf: &[u8], mark: u32, store: &ConfigStore, sentinel: u32) -> (r: Outcome)
    requires
        store.wf(),
    ensures
        r.action == spec_classify(buf@, mark, store.bypass_marks@, store.params@, sentinel),
        r.diag == spec_diag(buf@, mark, store.bypass_marks@, store.params@, sentinel),
{
    let pass = Outcome { action: Action::Pass, diag: None };

    // Rule 1: a bypassed mark short-circuits all parsing.
    if is_clash(mark, &store.bypass_marks) {
        return pass;
    }

    // Rule 2: Ethernet header present and ether-type IPv4.
    if buf.len() < ETH_HDR_LEN {
        return pass;
    }
    if read_be16(buf, 12) != ETHERTYPE_IPV4 {
        return pass;
    }

    // Rule 3: complete IPv4 header.
    if buf.len() < ETH_HDR_LEN + IPV4_HDR_LEN {
        return pass;
    }

    // Rule 4: extract addresses and protocol id.
    let proto_id = buf[ETH_HDR_LEN + 9];
    let src = read_be32(buf, ETH_HDR_LEN + 12);
    let dst = read_be32(buf, ETH_HDR_LEN + 16);

    // Rule 5: only TCP and UDP go on.
    let proto: Proto;
    let transport_len: usize;
    if proto_id == IP_PROTO_TCP {
        proto = Proto::Tcp;
        transport_len = TCP_HDR_LEN;
    } else if proto_id == IP_PROTO_UDP {
        proto = Proto::Udp;
        transport_len = UDP_HDR_LEN;
    } else {
        return pass;
    }

    // Rule 6: complete transport header; ports serve diagnostics only.
    if buf.len() < ETH_HDR_LEN + IPV4_HDR_LEN + transport_len {
        return pass;
    }
    let sport = read_be16(buf, ETH_HDR_LEN + IPV4_HDR_LEN);
    let dport = read_be16(buf, ETH_HDR_LEN + IPV4_HDR_LEN + 2);

    // Rules 7 and 8: the single redirect predicate.
    if dst != sentinel {
        return pass;
    }

    // Rule 9: redirect if a tunnel target is configured, else log and pass.
    let mut diag = DiagRecord {
        proto,
        src,
        sport,
        dst,
        dport,
        missing_target: false,
    };
    match store.params.get(TUN_INDEX_KEY) {
        Some(index) => Outcome { action: Action::Redirect(index), diag: Some(diag) },
        None => {
            diag.missing_target = true;
            Outcome { action: Action::Pass, diag: Some(diag) }
        },
    }
}

/// The bare per-packet decision with the default sentinel address: what the
/// egress hook consults for every outbound packet.
pub fn tun_sidecar(buf: &[u8], mark: u32, store: &ConfigStore) -> (act: Action)
    requires
        store.wf(),
    ensures
        act == spec_classify(buf@, mark, store.bypass_marks@, store.params@, DEFAULT_SENTINEL),
{
    classify(buf, mark, store, DEFAULT_SENTINEL).action
}

/// The hot path's answer to any per-packet fault. The classifier runs in a
/// context that must never abort, so there is no panic: whatever went wrong
/// with a packet, the decision for it is to pass it on unchanged.
pub fn panic() -> (act: Action)
    ensures
        act == Action::Pass,
{
    Action::Pass
}

/// Law: a packet whose mark is in the bypass set passes, regardless of
/// payload validity — truncated payloads included.
pub proof fn lemma_bypassed_packets_pass(
    b: Seq<u8>,
    mark: u32,
    marks: Map<u32, u32>,
    params: Map<u32, u32>,
    sentinel: u32,
)
    requires
        marks.contains_key(mark),
    ensures
        spec_classify(b, mark, marks, params, sentinel) == Action::Pass,
{
}

/// Law: a non-IPv4 packet passes, whatever its mark, payload or the store.
pub proof fn lemma_non_ipv4_packets_pass(
    b: Seq<u8>,
    mark: u32,
    marks: Map<u32, u32>,
    params: Map<u32, u32>,
    sentinel: u32,
)
    requires
        !is_ipv4(b),
    ensures
        spec_classify(b, mark, marks, params, sentinel) == Action::Pass,
{
}

/// Law: an IPv4 TCP/UDP packet whose destination is not the sentinel
/// address passes.
pub proof fn lemma_other_destinations_pass(
    b: Seq<u8>,
    mark: u32,
    marks: Map<u32, u32>,
    params: Map<u32, u32>,
    sentinel: u32,
)
    requires
        is_ipv4(b),
        has_ipv4_header(b),
        is_tcp_or_udp(protocol_of(b)),
        dst_addr_of(b) != sentinel,
    ensures
        spec_classify(b, mark, marks, params, sentinel) == Action::Pass,
{
}

/// Law: an IPv4 TCP/UDP packet addressed to the sentinel, not bypassed,
/// redirects to the configured tunnel target — the value most recently
/// written under the tunnel key.
pub proof fn lemma_matching_packets_redirect(
    b: Seq<u8>,
    mark: u32,
    marks: Map<u32, u32>,
    params: Map<u32, u32>,
    sentinel: u32,
    target: u32,
)
    requires
        matched(b, mark, marks, sentinel),
        params.contains_key(TUN_INDEX_KEY),
        params[TUN_INDEX_KEY] == target,
    ensures
        spec_classify(b, mark, marks, params, sentinel) == Action::Redirect(target),
{
}

/// Law: when no tunnel target was configured, every packet — matching ones
/// included — passes; the match is still recorded as a diagnostic with the
/// missing-configuration note.
pub proof fn lemma_missing_target_passes(
    b: Seq<u8>,
    mark: u32,
    marks: Map<u32, u32>,
    params: Map<u32, u32>,
    sentinel: u32,
)
    requires
        !params.contains_key(TUN_INDEX_KEY),
    ensures
        spec_classify(b, mark, marks, params, sentinel) == Action::Pass,
        matched(b, mark, marks, sentinel) ==> (spec_diag(b, mark, marks, params, sentinel)
            matches Some(d) && d.missing_target),
{
}

} // verus!
