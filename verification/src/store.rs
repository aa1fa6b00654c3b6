//! Bounded key-value tables shared between the control plane and the
//! per-packet classifier.
//!
//! A [`Table`] is a capacity-bounded map from `u32` keys to `u32` values with
//! two point operations: `set` (insert-or-overwrite, which fails explicitly
//! instead of evicting when the capacity is exhausted) and `get`. The
//! [`ConfigStore`] bundles the three tables the system uses: the single-slot
//! tunnel target, the bypass mark set and the bypass pid set.

use vstd::prelude::*;

verus! {

/// Capacity of the params table (it effectively holds one key, the tunnel
/// target, but leaves room for further parameters).
pub const PARAMS_CAPACITY: usize = 8;

/// Capacity of the bypass mark table.
pub const MARK_CAPACITY: usize = 128;

/// Capacity of the bypass pid table.
pub const PID_CAPACITY: usize = 128;

/// Error returned when an insert of a new key would exceed a table's fixed
/// capacity. The table is left unchanged: there is no silent eviction.
#[derive(Clone, Copy, Debug, PartialEq, Eq, Structural)]
pub enum StoreError {
    CapacityExceeded,
}

/// No two entries of the sequence carry the same key.
pub open spec fn distinct_keys(s: Seq<(u32, u32)>) -> bool {
    forall|i: int, j: int|
        0 <= i < j < s.len() ==> (#[trigger] s[i]).0 != (#[trigger] s[j]).0
}

/// The map that a sequence of key-value entries denotes; later entries win.
pub open spec fn map_of(s: Seq<(u32, u32)>) -> Map<u32, u32>
    decreases s.len(),
{
    if s.len() == 0 {
        Map::empty()
    } else {
        map_of(s.drop_last()).insert(s.last().0, s.last().1)
    }
}

/// Every key that occurs in the sequence is in the denoted map, with the
/// value of its entry, provided keys are distinct.
pub proof fn lemma_map_of_index(s: Seq<(u32, u32)>, i: int)
    requires
        distinct_keys(s),
        0 <= i < s.len(),
    ensures
        map_of(s).contains_key(s[i].0),
        map_of(s)[s[i].0] == s[i].1,
    decreases s.len(),
{
    if i < s.len() - 1 {
        lemma_map_of_index(s.drop_last(), i);
    }
}

/// A key that occurs in no entry is absent from the denoted map.
pub proof fn lemma_map_of_absent(s: Seq<(u32, u32)>, k: u32)
    requires
        forall|i: int| 0 <= i < s.len() ==> (#[trigger] s[i]).0 != k,
    ensures
        !map_of(s).contains_key(k),
    decreases s.len(),
{
    if s.len() > 0 {
        lemma_map_of_absent(s.drop_last(), k);
    }
}

/// With distinct keys the denoted map has exactly one key per entry.
pub proof fn lemma_map_of_dom_len(s: Seq<(u32, u32)>)
    requires
        distinct_keys(s),
    ensures
        map_of(s).dom().finite(),
        map_of(s).dom().len() == s.len(),
    decreases s.len(),
{
    broadcast use vstd::set::group_set_axioms;

    if s.len() > 0 {
        lemma_map_of_dom_len(s.drop_last());
        lemma_map_of_absent(s.drop_last(), s.last().0);
    }
}

/// Appending a fresh entry denotes an insert.
pub proof fn lemma_map_of_push(s: Seq<(u32, u32)>, k: u32, v: u32)
    ensures
        map_of(s.push((k, v))) == map_of(s).insert(k, v),
{
    assert(s.push((k, v)).drop_last() =~= s);
}

/// Overwriting the entry that holds a key denotes an insert for that key.
pub proof fn lemma_map_of_update(s: Seq<(u32, u32)>, i: int, v: u32)
    requires
        distinct_keys(s),
        0 <= i < s.len(),
    ensures
        map_of(s.update(i, (s[i].0, v))) == map_of(s).insert(s[i].0, v),
    decreases s.len(),
{
    let k = s[i].0;
    let t = s.update(i, (k, v));
    if i == s.len() - 1 {
        assert(t.drop_last() =~= s.drop_last());
        assert(map_of(t) =~= map_of(s).insert(k, v));
    } else {
        assert(t.drop_last() =~= s.drop_last().update(i, (k, v)));
        lemma_map_of_update(s.drop_last(), i, v);
        // The final entry's key differs from k, so the two inserts commute.
        assert(s.last().0 != k);
        assert(map_of(t) =~= map_of(s).insert(k, v));
    }
}

/// A capacity-bounded key-value table with point reads and writes.
pub struct Table {
    entries: Vec<(u32, u32)>,
    capacity: usize,
}

impl View for Table {
    type V = Map<u32, u32>;

    closed spec fn view(&self) -> Map<u32, u32> {
        map_of(self.entries@)
    }
}

impl Table {
    /// The fixed capacity the table was created with.
    pub closed spec fn capacity(&self) -> int {
        self.capacity as int
    }

    /// Well-formedness: entries carry distinct keys and fit the capacity.
    pub closed spec fn wf(&self) -> bool {
        distinct_keys(self.entries@) && self.entries@.len() <= self.capacity
    }

    /// An empty table with the given capacity.
    pub fn new(capacity: usize) -> (t: Table)
        ensures
            t.wf(),
            t@ == Map::<u32, u32>::empty(),
            t.capacity() == capacity,
    {
        Table { entries: Vec::new(), capacity }
    }

    /// Point lookup: the value most recently written under `key`, if any.
    pub fn get(&self, key: u32) -> (r: Option<u32>)
        requires
            self.wf(),
        ensures
            self@.contains_key(key) ==> r == Some(self@[key]),
            !self@.contains_key(key) ==> r is None,
    {
        let n = self.entries.len();
        let mut i: usize = 0;
        while i < n
            invariant
                n == self.entries@.len(),
                i <= n,
                self.wf(),
                forall|j: int| 0 <= j < i ==> (#[trigger] self.entries@[j]).0 != key,
            decreases n - i,
        {
            if self.entries[i].0 == key {
                proof {
                    lemma_map_of_index(self.entries@, i as int);
                }
                return Some(self.entries[i].1);
            }
            i = i + 1;
        }
        proof {
            lemma_map_of_absent(self.entries@, key);
        }
        None
    }

    /// Insert-or-overwrite. Overwriting an existing key always succeeds;
    /// inserting a new key succeeds exactly when the table still has room.
    /// On failure the table is unchanged — full tables never evict.
    pub fn set(&mut self, key: u32, value: u32) -> (r: Result<(), StoreError>)
        requires
            old(self).wf(),
        ensures
            final(self).wf(),
            final(self).capacity() == old(self).capacity(),
            r is Ok ==> final(self)@ == old(self)@.insert(key, value),
            r is Err ==> final(self)@ == old(self)@,
            r is Err ==> !old(self)@.contains_key(key)
                && old(self)@.dom().len() == old(self).capacity(),
            r is Ok <==> (old(self)@.contains_key(key)
                || old(self)@.dom().len() < old(self).capacity()),
    {
        let n = self.entries.len();
        let mut i: usize = 0;
        while i < n
            invariant
                *self == *old(self),
                n == self.entries@.len(),
                i <= n,
                self.wf(),
                forall|j: int| 0 <= j < i ==> (#[trigger] self.entries@[j]).0 != key,
            decreases n - i,
        {
            if self.entries[i].0 == key {
                proof {
                    lemma_map_of_index(self.entries@, i as int);
                    lemma_map_of_update(self.entries@, i as int, value);
                }
                self.entries[i] = (key, value);
                return Ok(());
            }
            i = i + 1;
        }
        proof {
            lemma_map_of_absent(self.entries@, key);
            lemma_map_of_dom_len(self.entries@);
        }
        if self.entries.len() < self.capacity {
            proof {
                lemma_map_of_push(self.entries@, key, value);
            }
            self.entries.push((key, value));
            Ok(())
        } else {
            Err(StoreError::CapacityExceeded)
        }
    }

    /// The table's view never holds more keys than its capacity.
    pub proof fn lemma_dom_bounded(&self)
        requires
            self.wf(),
        ensures
            self@.dom().finite(),
            self@.dom().len() <= self.capacity(),
    {
        lemma_map_of_dom_len(self.entries@);
    }
}

/// Law: a key is single-valued — after two writes under the same key, a
/// read observes the most recently written value, whatever was there before.
pub proof fn lemma_last_write_wins(m: Map<u32, u32>, k: u32, v1: u32, v2: u32)
    ensures
        m.insert(k, v1).insert(k, v2).contains_key(k),
        m.insert(k, v1).insert(k, v2)[k] == v2,
{
}

/// The three configuration tables the system shares between the startup
/// control plane and the classifier: the tunnel parameters, the bypass mark
/// set, and the bypass pid set. The pid set is deliberately retained as
/// configuration surface that the current classifier does not consult; it is
/// populated at startup so that a future bypass predicate can read it without
/// a store format change.
pub struct ConfigStore {
    /// Parameters table; `TUN_INDEX_KEY` maps to the tunnel interface index.
    pub params: Table,
    /// Marks exempt from redirection; membership is what matters.
    pub bypass_marks: Table,
    /// Process ids recorded for bypass; not read by the classifier.
    pub bypass_pids: Table,
}

impl ConfigStore {
    /// All three tables are well-formed and carry their fixed capacities.
    pub open spec fn wf(&self) -> bool {
        &&& self.params.wf()
        &&& self.bypass_marks.wf()
        &&& self.bypass_pids.wf()
        &&& self.params.capacity() == PARAMS_CAPACITY as int
        &&& self.bypass_marks.capacity() == MARK_CAPACITY as int
        &&& self.bypass_pids.capacity() == PID_CAPACITY as int
    }

    /// The empty store every process starts from.
    pub fn new() -> (s: ConfigStore)
        ensures
            s.wf(),
            s.params@ == Map::<u32, u32>::empty(),
            s.bypass_marks@ == Map::<u32, u32>::empty(),
            s.bypass_pids@ == Map::<u32, u32>::empty(),
    {
        ConfigStore {
            params: Table::new(PARAMS_CAPACITY),
            bypass_marks: Table::new(MARK_CAPACITY),
            bypass_pids: Table::new(PID_CAPACITY),
        }
    }
}

} // verus!
