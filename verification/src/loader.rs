//! The startup control plane, as a verified decision core.
//!
//! The loader's sequence — resolve the tunnel interface, populate the store,
//! ensure and attach an egress hook per interface, then wait for termination
//! — alternates outside work (name resolution, kernel hook calls, the signal
//! wait) with decisions. The decisions live here: [`Loader::step`] maps the
//! current phase and the outcome of the last outside operation to the next
//! phase and the next operation to perform. The surrounding process performs
//! each [`LoaderAction`] and feeds the outcome back as an [`Event`].
//!
//! Failure policy, verified: a failed hook-ensure is never fatal (the hook
//! may already exist); a failed resolution, a table over capacity, or a
//! failed attach aborts the whole startup; termination exits without
//! reversing any attachment.

use crate::store::{ConfigStore, MARK_CAPACITY, PID_CAPACITY};
use crate::TUN_INDEX_KEY;
use vstd::prelude::*;

verus! {

/// The fatal startup conditions. Per-packet conditions never reach this
/// type: they are absorbed by the classifier.
#[derive(Clone, Copy, Debug, PartialEq, Eq, Structural)]
pub enum StartupError {
    /// The tunnel interface name did not resolve to an index.
    ResolveFailed,
    /// More distinct bypass marks than the mark table's capacity.
    MarkCapacityExceeded,
    /// More distinct bypass pids than the pid table's capacity.
    PidCapacityExceeded,
    /// Attaching the classifier to an interface failed.
    AttachFailed,
}

/// The map that bulk-inserting a sequence of keys (each with value 0)
/// produces; duplicates collapse.
pub open spec fn mark_map(s: Seq<u32>) -> Map<u32, u32>
    decreases s.len(),
{
    if s.len() == 0 {
        Map::empty()
    } else {
        mark_map(s.drop_last()).insert(s.last(), 0)
    }
}

/// How many distinct values the sequence holds.
pub open spec fn distinct_count(s: Seq<u32>) -> nat {
    mark_map(s).dom().len()
}

/// The bypass marks fit their table.
pub open spec fn marks_fit(s: Seq<u32>) -> bool {
    distinct_count(s) <= MARK_CAPACITY as nat
}

/// The bypass pids fit their table.
pub open spec fn pids_fit(s: Seq<u32>) -> bool {
    distinct_count(s) <= PID_CAPACITY as nat
}

/// The params table after the tunnel target was written.
pub open spec fn populated_params(ix: u32) -> Map<u32, u32> {
    Map::empty().insert(TUN_INDEX_KEY, ix)
}

/// The denoted map has a finite domain.
pub proof fn lemma_mark_map_finite(s: Seq<u32>)
    ensures
        mark_map(s).dom().finite(),
    decreases s.len(),
{
    if s.len() > 0 {
        lemma_mark_map_finite(s.drop_last());
    }
}

/// Taking one more element denotes one more insert.
pub proof fn lemma_mark_map_take_step(s: Seq<u32>, i: int)
    requires
        0 <= i < s.len(),
    ensures
        mark_map(s.take(i + 1)) == mark_map(s.take(i)).insert(s[i], 0),
{
    assert(s.take(i + 1).drop_last() =~= s.take(i));
}

/// Every key seen in a prefix is a key of the whole sequence's map.
pub proof fn lemma_mark_map_take_dom_subset(s: Seq<u32>, i: int)
    requires
        0 <= i <= s.len(),
    ensures
        mark_map(s.take(i)).dom().subset_of(mark_map(s).dom()),
    decreases s.len() - i,
{
    if i == s.len() {
        assert(s.take(i) =~= s);
    } else {
        lemma_mark_map_take_step(s, i);
        lemma_mark_map_take_dom_subset(s, i + 1);
        assert forall|k: u32| mark_map(s.take(i)).dom().contains(k)
            implies mark_map(s).dom().contains(k) by {
            assert(mark_map(s.take(i + 1)).dom().contains(k));
        }
    }
}

/// Populate a fresh store: write the tunnel target, then bulk-insert the
/// bypass marks and the bypass pids. Succeeds exactly when both bulk inserts
/// fit their tables' capacities; a capacity overflow is reported for the
/// table that overflowed, marks first, and fails the startup.
pub fn populate_store(tun_ifindex: u32, marks: &Vec<u32>, pids: &Vec<u32>) -> (r: Result<
    ConfigStore,
    StartupError,
>)
    ensures
        r is Ok <==> marks_fit(marks@) && pids_fit(pids@),
        r matches Ok(s) ==> s.wf() && s.params@ == populated_params(tun_ifindex)
            && s.bypass_marks@ == mark_map(marks@) && s.bypass_pids@ == mark_map(pids@),
        r matches Err(e) ==> (e == StartupError::MarkCapacityExceeded <==> !marks_fit(marks@)),
        r matches Err(e) ==> (e == StartupError::PidCapacityExceeded <==> marks_fit(marks@)
            && !pids_fit(pids@)),
{
    let mut store = ConfigStore::new();

    // The params table is empty and its capacity is positive, so writing the
    // tunnel target cannot fail.
    let wrote = store.params.set(TUN_INDEX_KEY, tun_ifindex);
    proof {
        broadcast use vstd::set::group_set_axioms;

        assert(wrote is Ok);
    }

    let mut i: usize = 0;
    while i < marks.len()
        invariant
            store.wf(),
            store.params@ == populated_params(tun_ifindex),
            store.bypass_marks@ == mark_map(marks@.take(i as int)),
            store.bypass_pids@ == Map::<u32, u32>::empty(),
            i <= marks@.len(),
        decreases marks@.len() - i,
    {
        let r = store.bypass_marks.set(marks[i], 0);
        match r {
            Ok(_) => {
                proof {
                    lemma_mark_map_take_step(marks@, i as int);
                }
            },
            Err(_) => {
                proof {
                    broadcast use vstd::set::group_set_axioms;

                    let pre = mark_map(marks@.take(i as int));
                    let post = mark_map(marks@.take(i as int + 1));
                    lemma_mark_map_take_step(marks@, i as int);
                    lemma_mark_map_finite(marks@.take(i as int));
                    assert(post.dom() =~= pre.dom().insert(marks@[i as int]));
                    lemma_mark_map_finite(marks@);
                    lemma_mark_map_take_dom_subset(marks@, i as int + 1);
                    vstd::set_lib::lemma_len_subset(post.dom(), mark_map(marks@).dom());
                }
                return Err(StartupError::MarkCapacityExceeded);
            },
        }
        i = i + 1;
    }
    proof {
        assert(marks@.take(marks@.len() as int) =~= marks@);
        store.bypass_marks.lemma_dom_bounded();
    }

    let mut j: usize = 0;
    while j < pids.len()
        invariant
            store.wf(),
            store.params@ == populated_params(tun_ifindex),
            store.bypass_marks@ == mark_map(marks@),
            store.bypass_pids@ == mark_map(pids@.take(j as int)),
            marks_fit(marks@),
            j <= pids@.len(),
        decreases pids@.len() - j,
    {
        let r = store.bypass_pids.set(pids[j], 0);
        match r {
            Ok(_) => {
                proof {
                    lemma_mark_map_take_step(pids@, j as int);
                }
            },
            Err(_) => {
                proof {
                    broadcast use vstd::set::group_set_axioms;

                    let pre = mark_map(pids@.take(j as int));
                    let post = mark_map(pids@.take(j as int + 1));
                    lemma_mark_map_take_step(pids@, j as int);
                    lemma_mark_map_finite(pids@.take(j as int));
                    assert(post.dom() =~= pre.dom().insert(pids@[j as int]));
                    lemma_mark_map_finite(pids@);
                    lemma_mark_map_take_dom_subset(pids@, j as int + 1);
                    vstd::set_lib::lemma_len_subset(post.dom(), mark_map(pids@).dom());
                }
                return Err(StartupError::PidCapacityExceeded);
            },
        }
        j = j + 1;
    }
    proof {
        assert(pids@.take(pids@.len() as int) =~= pids@);
        store.bypass_pids.lemma_dom_bounded();
    }

    Ok(store)
}

/// The phases of the startup sequence, in order; `Failed` is terminal, and
/// `Wait` is the steady state in which only termination is expected.
#[derive(Clone, Copy, Debug, PartialEq, Eq, Structural)]
pub enum Phase {
    /// Awaiting the resolution of the tunnel interface name.
    Resolve,
    /// Awaiting the hook-ensure outcome for the interface with this index.
    Ensure(usize),
    /// Awaiting the attach outcome for the interface with this index.
    Attach(usize),
    /// Startup is complete; awaiting an external termination signal.
    Wait,
    /// Terminated; no hook attachment is reversed.
    Done,
    /// Startup aborted with this error; no further step is taken.
    Failed(StartupError),
}

/// The outcome of the outside operation the loader last asked for.
#[derive(Clone, Copy, Debug, PartialEq, Eq, Structural)]
pub enum Event {
    /// Name resolution returned an interface index, or failed.
    Resolved(Option<u32>),
    /// The hook-ensure operation completed; `true` if it reported success.
    /// A `false` outcome is expected when the hook already exists.
    Ensured(bool),
    /// The attach operation completed; `true` if it succeeded.
    Attached(bool),
    /// The external termination signal arrived.
    Terminated,
}

/// What the surrounding process must do next.
#[derive(Clone, Copy, Debug, PartialEq, Eq, Structural)]
pub enum LoaderAction {
    /// Ensure an egress hook exists on the interface with this index.
    DoEnsure(usize),
    /// Attach the classifier to the interface with this index.
    DoAttach(usize),
    /// Block awaiting the external termination signal.
    DoWait,
    /// Exit, reversing nothing.
    Exit,
    /// Abort the startup with this error.
    Fail(StartupError),
}

/// The startup orchestrator: the interfaces to attach to (by count; the
/// surrounding process keeps their names), the bypass values to install, the
/// current phase, and the store being populated.
pub struct Loader {
    /// How many interfaces the classifier is to be attached to.
    pub n_ifaces: usize,
    /// Bypass mark values supplied by the caller.
    pub marks: Vec<u32>,
    /// Bypass pid values supplied by the caller.
    pub pids: Vec<u32>,
    /// Where in the startup sequence the loader stands.
    pub phase: Phase,
    /// The configuration store, populated on resolution.
    pub store: ConfigStore,
}

/// The event answers the operation the phase is waiting for.
pub open spec fn event_fits(phase: Phase, ev: Event) -> bool {
    match (phase, ev) {
        (Phase::Resolve, Event::Resolved(_)) => true,
        (Phase::Ensure(_), Event::Ensured(_)) => true,
        (Phase::Attach(_), Event::Attached(_)) => true,
        (Phase::Wait, Event::Terminated) => true,
        _ => false,
    }
}

/// The loader's configuration inputs are unchanged.
pub open spec fn same_config(pre: Loader, post: Loader) -> bool {
    post.n_ifaces == pre.n_ifaces && post.marks == pre.marks && post.pids == pre.pids
}

/// The complete transition relation of the startup sequence. It pins phase,
/// action and store for every phase/event pair the loader accepts:
/// resolution failure, capacity overflow and attach failure are fatal; a
/// hook-ensure outcome — success or failure — always proceeds to attach;
/// termination exits without touching the store.
pub open spec fn step_spec(pre: Loader, ev: Event, post: Loader, act: LoaderAction) -> bool {
    &&& same_config(pre, post)
    &&& match (pre.phase, ev) {
        (Phase::Resolve, Event::Resolved(resolution)) => {
            if resolution is None {
                &&& post.phase == Phase::Failed(StartupError::ResolveFailed)
                &&& act == LoaderAction::Fail(StartupError::ResolveFailed)
                &&& post.store == pre.store
            } else if marks_fit(pre.marks@) && pids_fit(pre.pids@) {
                let ix = resolution->0;
                &&& post.store.wf()
                &&& post.store.params@ == populated_params(ix)
                &&& post.store.bypass_marks@ == mark_map(pre.marks@)
                &&& post.store.bypass_pids@ == mark_map(pre.pids@)
                &&& if pre.n_ifaces == 0 {
                    post.phase == Phase::Wait && act == LoaderAction::DoWait
                } else {
                    post.phase == Phase::Ensure(0) && act == LoaderAction::DoEnsure(0)
                }
            } else {
                let e = if !marks_fit(pre.marks@) {
                    StartupError::MarkCapacityExceeded
                } else {
                    StartupError::PidCapacityExceeded
                };
                &&& post.phase == Phase::Failed(e)
                &&& act == LoaderAction::Fail(e)
                &&& post.store == pre.store
            }
        },
        (Phase::Ensure(i), Event::Ensured(_)) => {
            &&& post.phase == Phase::Attach(i)
            &&& act == LoaderAction::DoAttach(i)
            &&& post.store == pre.store
        },
        (Phase::Attach(i), Event::Attached(ok)) => {
            if ok {
                &&& post.store == pre.store
                &&& if i + 1 < pre.n_ifaces {
                    post.phase == Phase::Ensure((i + 1) as usize) && act == LoaderAction::DoEnsure(
                        (i + 1) as usize,
                    )
                } else {
                    post.phase == Phase::Wait && act == LoaderAction::DoWait
                }
            } else {
                &&& post.phase == Phase::Failed(StartupError::AttachFailed)
                &&& act == LoaderAction::Fail(StartupError::AttachFailed)
                &&& post.store == pre.store
            }
        },
        (Phase::Wait, Event::Terminated) => {
            &&& post.phase == Phase::Done
            &&& act == LoaderAction::Exit
            &&& post.store == pre.store
        },
        _ => false,
    }
}

impl Loader {
    /// Interface indexes the loader hands out stay within bounds, and the
    /// store is always well-formed.
    pub open spec fn wf(&self) -> bool {
        &&& self.store.wf()
        &&& match self.phase {
            Phase::Ensure(i) => i < self.n_ifaces,
            Phase::Attach(i) => i < self.n_ifaces,
            _ => true,
        }
    }

    /// A loader at the start of the sequence: resolution comes first.
    pub fn new(n_ifaces: usize, marks: Vec<u32>, pids: Vec<u32>) -> (l: Loader)
        ensures
            l.wf(),
            l.phase == Phase::Resolve,
            l.n_ifaces == n_ifaces,
            l.marks@ == marks@,
            l.pids@ == pids@,
            l.store.params@ == Map::<u32, u32>::empty(),
            l.store.bypass_marks@ == Map::<u32, u32>::empty(),
            l.store.bypass_pids@ == Map::<u32, u32>::empty(),
    {
        Loader { n_ifaces, marks, pids, phase: Phase::Resolve, store: ConfigStore::new() }
    }

    /// Advance the startup sequence by one outside outcome and return the
    /// next operation to perform.
    pub fn step(&mut self, ev: Event) -> (act: LoaderAction)
        requires
            old(self).wf(),
            event_fits(old(self).phase, ev),
        ensures
            final(self).wf(),
            step_spec(*old(self), ev, *final(self), act),
    {
        match (self.phase, ev) {
            (Phase::Resolve, Event::Resolved(resolution)) => {
                match resolution {
                    None => {
                        self.phase = Phase::Failed(StartupError::ResolveFailed);
                        LoaderAction::Fail(StartupError::ResolveFailed)
                    },
                    Some(ix) => {
                        match populate_store(ix, &self.marks, &self.pids) {
                            Ok(store) => {
                                self.store = store;
                                if self.n_ifaces == 0 {
                                    self.phase = Phase::Wait;
                                    LoaderAction::DoWait
                                } else {
                                    self.phase = Phase::Ensure(0);
                                    LoaderAction::DoEnsure(0)
                                }
                            },
                            Err(e) => {
                                self.phase = Phase::Failed(e);
                                LoaderAction::Fail(e)
                            },
                        }
                    },
                }
            },
            (Phase::Ensure(i), Event::Ensured(_)) => {
                self.phase = Phase::Attach(i);
                LoaderAction::DoAttach(i)
            },
            (Phase::Attach(i), Event::Attached(ok)) => {
                if ok {
                    if i + 1 < self.n_ifaces {
                        self.phase = Phase::Ensure(i + 1);
                        LoaderAction::DoEnsure(i + 1)
                    } else {
                        self.phase = Phase::Wait;
                        LoaderAction::DoWait
                    }
                } else {
                    self.phase = Phase::Failed(StartupError::AttachFailed);
                    LoaderAction::Fail(StartupError::AttachFailed)
                }
            },
            (Phase::Wait, Event::Terminated) => {
                self.phase = Phase::Done;
                LoaderAction::Exit
            },
            _ => {
                proof {
                    assert(false);
                }
                LoaderAction::DoWait
            },
        }
    }
}

/// Law: a hook-ensure step never fails the startup, whatever the outcome of
/// the underlying operation — so re-running it against an interface that
/// already carries the hook does not fail that step.
pub proof fn lemma_ensure_never_fatal(pre: Loader, outcome: bool, post: Loader, act: LoaderAction)
    requires
        pre.phase matches Phase::Ensure(_),
        step_spec(pre, Event::Ensured(outcome), post, act),
    ensures
        !(post.phase matches Phase::Failed(_)),
        !(act matches LoaderAction::Fail(_)),
{
}

} // verus!
