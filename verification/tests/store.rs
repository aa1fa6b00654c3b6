use tun_sidecar::store::{ConfigStore, StoreError, Table, MARK_CAPACITY};

#[test]
fn set_then_get_roundtrip() {
    let mut t = Table::new(4);
    t.set(10, 100).unwrap();
    t.set(20, 200).unwrap();
    assert_eq!(t.get(10), Some(100));
    assert_eq!(t.get(20), Some(200));
    assert_eq!(t.get(30), None);
}

#[test]
fn last_write_wins() {
    let mut t = Table::new(4);
    t.set(10, 100).unwrap();
    t.set(10, 999).unwrap();
    assert_eq!(t.get(10), Some(999));
}

#[test]
fn full_table_rejects_new_key_without_eviction() {
    let mut t = Table::new(2);
    t.set(1, 11).unwrap();
    t.set(2, 22).unwrap();
    // A third distinct key exceeds the capacity; the insert fails
    // explicitly and the existing entries survive.
    assert_eq!(t.set(3, 33), Err(StoreError::CapacityExceeded));
    assert_eq!(t.get(1), Some(11));
    assert_eq!(t.get(2), Some(22));
    assert_eq!(t.get(3), None);
}

#[test]
fn full_table_still_overwrites_existing_key() {
    let mut t = Table::new(2);
    t.set(1, 11).unwrap();
    t.set(2, 22).unwrap();
    t.set(2, 99).unwrap();
    assert_eq!(t.get(2), Some(99));
}

#[test]
fn zero_capacity_rejects_everything() {
    let mut t = Table::new(0);
    assert_eq!(t.set(1, 1), Err(StoreError::CapacityExceeded));
    assert_eq!(t.get(1), None);
}

#[test]
fn fresh_store_is_empty() {
    let s = ConfigStore::new();
    assert_eq!(s.params.get(0), None);
    assert_eq!(s.bypass_marks.get(0), None);
    assert_eq!(s.bypass_pids.get(0), None);
}

#[test]
fn mark_table_holds_its_full_capacity() {
    let mut s = ConfigStore::new();
    for m in 0..MARK_CAPACITY as u32 {
        s.bypass_marks.set(m, 0).unwrap();
    }
    assert_eq!(
        s.bypass_marks.set(MARK_CAPACITY as u32, 0),
        Err(StoreError::CapacityExceeded)
    );
    assert_eq!(s.bypass_marks.get(0), Some(0));
    assert_eq!(s.bypass_marks.get(MARK_CAPACITY as u32 - 1), Some(0));
}
