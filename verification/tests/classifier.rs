use tun_sidecar::classifier::{classify, is_clash, tun_sidecar, Action, Proto};
use tun_sidecar::store::ConfigStore;
use tun_sidecar::{DEFAULT_SENTINEL, TUN_INDEX_KEY};

/// Build an Ethernet + IPv4 + transport frame with the given protocol id,
/// addresses and ports. TCP gets a 20-byte transport header, anything else 8.
fn packet(proto: u8, src: [u8; 4], dst: [u8; 4], sport: u16, dport: u16) -> Vec<u8> {
    let transport = if proto == 6 { 20 } else { 8 };
    let mut b = vec![0u8; 14 + 20 + transport];
    b[12] = 0x08;
    b[13] = 0x00;
    b[23] = proto;
    b[26..30].copy_from_slice(&src);
    b[30..34].copy_from_slice(&dst);
    b[34] = (sport >> 8) as u8;
    b[35] = (sport & 0xff) as u8;
    b[36] = (dport >> 8) as u8;
    b[37] = (dport & 0xff) as u8;
    b
}

fn store_with(marks: &[u32], target: Option<u32>) -> ConfigStore {
    let mut s = ConfigStore::new();
    for &m in marks {
        s.bypass_marks.set(m, 0).unwrap();
    }
    if let Some(t) = target {
        s.params.set(TUN_INDEX_KEY, t).unwrap();
    }
    s
}

#[test]
fn bypassed_mark_passes_despite_match() {
    // mark 42 is bypassed; a TCP packet to 1.1.1.1 that would otherwise
    // redirect passes, and no diagnostic is recorded.
    let store = store_with(&[42], Some(7));
    let b = packet(6, [10, 0, 0, 1], [1, 1, 1, 1], 1000, 80);
    let r = classify(&b, 42, &store, DEFAULT_SENTINEL);
    assert_eq!(r.action, Action::Pass);
    assert!(r.diag.is_none());
}

#[test]
fn bypassed_mark_passes_on_truncated_payload() {
    let store = store_with(&[42], Some(7));
    let b = vec![0u8; 3];
    let r = classify(&b, 42, &store, DEFAULT_SENTINEL);
    assert_eq!(r.action, Action::Pass);
    assert!(r.diag.is_none());
}

#[test]
fn udp_match_redirects_to_target() {
    // mark 0 is not bypassed; UDP 10.0.0.5:5000 -> 1.1.1.1:53, target 7.
    let store = store_with(&[42], Some(7));
    let b = packet(17, [10, 0, 0, 5], [1, 1, 1, 1], 5000, 53);
    let r = classify(&b, 0, &store, DEFAULT_SENTINEL);
    assert_eq!(r.action, Action::Redirect(7));
    let d = r.diag.unwrap();
    assert_eq!(d.proto, Proto::Udp);
    assert_eq!(d.src, 0x0A00_0005);
    assert_eq!(d.sport, 5000);
    assert_eq!(d.dst, 0x0101_0101);
    assert_eq!(d.dport, 53);
    assert!(!d.missing_target);
}

#[test]
fn match_without_target_passes_with_diagnostic() {
    let store = store_with(&[42], None);
    let b = packet(17, [10, 0, 0, 5], [1, 1, 1, 1], 5000, 53);
    let r = classify(&b, 0, &store, DEFAULT_SENTINEL);
    assert_eq!(r.action, Action::Pass);
    let d = r.diag.unwrap();
    assert!(d.missing_target);
    assert_eq!(d.proto, Proto::Udp);
    assert_eq!(d.dst, 0x0101_0101);
}

#[test]
fn other_protocol_passes() {
    // ICMP (protocol id 1) to the sentinel address still passes.
    let store = store_with(&[], Some(7));
    let b = packet(1, [10, 0, 0, 5], [1, 1, 1, 1], 0, 0);
    let r = classify(&b, 0, &store, DEFAULT_SENTINEL);
    assert_eq!(r.action, Action::Pass);
    assert!(r.diag.is_none());
}

#[test]
fn short_buffer_passes() {
    // 10 bytes is shorter than an Ethernet header.
    let store = store_with(&[], Some(7));
    let b = vec![0u8; 10];
    let r = classify(&b, 0, &store, DEFAULT_SENTINEL);
    assert_eq!(r.action, Action::Pass);
    assert!(r.diag.is_none());
}

#[test]
fn empty_buffer_passes() {
    let store = store_with(&[], Some(7));
    let r = classify(&[], 0, &store, DEFAULT_SENTINEL);
    assert_eq!(r.action, Action::Pass);
}

#[test]
fn non_ipv4_ethertype_passes() {
    let store = store_with(&[], Some(7));
    let mut b = packet(6, [10, 0, 0, 5], [1, 1, 1, 1], 1000, 80);
    // IPv6 ether-type.
    b[12] = 0x86;
    b[13] = 0xDD;
    let r = classify(&b, 0, &store, DEFAULT_SENTINEL);
    assert_eq!(r.action, Action::Pass);
}

#[test]
fn truncated_ipv4_header_passes() {
    let store = store_with(&[], Some(7));
    let b = packet(6, [10, 0, 0, 5], [1, 1, 1, 1], 1000, 80);
    let r = classify(&b[..20], 0, &store, DEFAULT_SENTINEL);
    assert_eq!(r.action, Action::Pass);
}

#[test]
fn truncated_tcp_header_passes() {
    // Complete IPv4 header, TCP protocol id, but only 6 of 20 transport
    // bytes: the packet passes and no diagnostic is recorded.
    let store = store_with(&[], Some(7));
    let b = packet(6, [10, 0, 0, 5], [1, 1, 1, 1], 1000, 80);
    let r = classify(&b[..40], 0, &store, DEFAULT_SENTINEL);
    assert_eq!(r.action, Action::Pass);
    assert!(r.diag.is_none());
}

#[test]
fn other_destination_passes() {
    let store = store_with(&[], Some(7));
    let b = packet(6, [10, 0, 0, 5], [8, 8, 8, 8], 1000, 443);
    let r = classify(&b, 0, &store, DEFAULT_SENTINEL);
    assert_eq!(r.action, Action::Pass);
    assert!(r.diag.is_none());
}

#[test]
fn sentinel_is_configurable() {
    // With the sentinel moved to 8.8.8.8, traffic there redirects and
    // traffic to the default sentinel passes.
    let store = store_with(&[], Some(9));
    let to_new = packet(6, [10, 0, 0, 5], [8, 8, 8, 8], 1000, 443);
    let to_default = packet(6, [10, 0, 0, 5], [1, 1, 1, 1], 1000, 443);
    let r1 = classify(&to_new, 0, &store, 0x0808_0808);
    let r2 = classify(&to_default, 0, &store, 0x0808_0808);
    assert_eq!(r1.action, Action::Redirect(9));
    assert_eq!(r2.action, Action::Pass);
}

#[test]
fn tcp_match_redirects() {
    let store = store_with(&[], Some(3));
    let b = packet(6, [192, 168, 1, 2], [1, 1, 1, 1], 40000, 443);
    let r = classify(&b, 5, &store, DEFAULT_SENTINEL);
    assert_eq!(r.action, Action::Redirect(3));
    let d = r.diag.unwrap();
    assert_eq!(d.proto, Proto::Tcp);
    assert_eq!(d.src, 0xC0A8_0102);
    assert_eq!(d.sport, 40000);
    assert_eq!(d.dport, 443);
}

#[test]
fn entry_point_uses_default_sentinel() {
    let store = store_with(&[], Some(7));
    let b = packet(17, [10, 0, 0, 5], [1, 1, 1, 1], 5000, 53);
    assert_eq!(tun_sidecar(&b, 0, &store), Action::Redirect(7));
    let elsewhere = packet(17, [10, 0, 0, 5], [9, 9, 9, 9], 5000, 53);
    assert_eq!(tun_sidecar(&elsewhere, 0, &store), Action::Pass);
}

#[test]
fn fault_policy_is_pass() {
    assert_eq!(tun_sidecar::classifier::panic(), Action::Pass);
}

#[test]
fn is_clash_reports_membership() {
    let store = store_with(&[42, 7], None);
    assert!(is_clash(42, &store.bypass_marks));
    assert!(is_clash(7, &store.bypass_marks));
    assert!(!is_clash(0, &store.bypass_marks));
}
