use std::collections::HashSet;
use vstd::prelude::*;
use vstd::std_specs::hash::spec_hash_keys_iter;
use vstd::std_specs::iter::IteratorSpec;

verus! {

broadcast use vstd::std_specs::hash::group_hash_axioms;

/// What a process tracker holds: the ids of the processes that may still be
/// running, and whether a shutdown was requested.
pub struct TrackerView {
    pub active: Set<u32>,
    pub shutdown: bool,
}

impl TrackerView {
    /// The tracker after a process was recorded.
    pub open spec fn register(self, pid: u32) -> TrackerView {
        TrackerView { active: self.active.insert(pid), ..self }
    }

    /// The tracker after a process was forgotten.
    pub open spec fn unregister(self, pid: u32) -> TrackerView {
        TrackerView { active: self.active.remove(pid), ..self }
    }

    /// The tracker after a shutdown was requested.
    pub open spec fn request_shutdown(self) -> TrackerView {
        TrackerView { shutdown: true, ..self }
    }
}

/// The processes started on behalf of one session, and its shutdown flag.
/// The flag, once set, stays set.
#[derive(Debug)]
pub struct ProcessTracker {
    active_processes: HashSet<u32>,
    shutdown_requested: bool,
}

impl View for ProcessTracker {
    type V = TrackerView;

    closed spec fn view(&self) -> TrackerView {
        TrackerView { active: self.active_processes@, shutdown: self.shutdown_requested }
    }
}

impl ProcessTracker {
    /// A tracker with no process and no shutdown requested.
    pub fn new() -> (r: ProcessTracker)
        ensures
            r@ == (TrackerView { active: Set::empty(), shutdown: false }),
    {
        ProcessTracker { active_processes: HashSet::new(), shutdown_requested: false }
    }

    /// Records a process that was just started.
    pub fn register_process(&mut self, pid: u32)
        ensures
            final(self)@ == old(self)@.register(pid),
    {
        self.active_processes.insert(pid);
    }

    /// Forgets a process that has been reaped; nothing happens if it is not
    /// recorded.
    pub fn unregister_process(&mut self, pid: u32)
        ensures
            final(self)@ == old(self)@.unregister(pid),
    {
        self.active_processes.remove(&pid);
    }

    /// Sets the shutdown flag.
    pub fn request_shutdown(&mut self)
        ensures
            final(self)@ == old(self)@.request_shutdown(),
    {
        self.shutdown_requested = true;
    }

    /// Whether a shutdown was requested.
    pub fn is_shutdown_requested(&self) -> (r: bool)
        ensures
            r == self@.shutdown,
    {
        self.shutdown_requested
    }

    /// Whether the process is recorded as possibly running.
    pub fn is_active(&self, pid: u32) -> (r: bool)
        ensures
            r == self@.active.contains(pid),
    {
        self.active_processes.contains(&pid)
    }

    /// The processes to send a termination signal to: every recorded one,
    /// each once. The tracker keeps them: they are forgotten when reaped.
    pub fn terminate_all_processes(&self) -> (r: Vec<u32>)
        ensures
            r@.to_set() == self@.active,
            r@.no_duplicates(),
            r@.len() == self@.active.len(),
    {
        let ghost keys = spec_hash_keys_iter(&self.active_processes).remaining();
        let mut r: Vec<u32> = Vec::new();
        for pid in it: self.active_processes.iter()
            invariant
                it.seq() == keys,
                r@.len() == it.index(),
                forall|i: int| 0 <= i < it.index() ==> r@[i] == *keys[i],
        {
            r.push(*pid);
        }
        assert(r@ =~= keys.unref());
        r
    }
}

/// Unregistering a process twice leaves the tracker as unregistering it
/// once does, and so does requesting a shutdown twice.
pub proof fn lemma_repeated_calls_change_nothing(t: TrackerView, pid: u32)
    ensures
        t.unregister(pid).unregister(pid) == t.unregister(pid),
        t.request_shutdown().request_shutdown() == t.request_shutdown(),
{
    assert(t.unregister(pid).unregister(pid).active =~= t.unregister(pid).active);
}

/// With no process recorded, terminating all processes signals none.
pub proof fn lemma_terminate_all_on_empty(t: TrackerView, targets: Seq<u32>)
    requires
        t.active == Set::<u32>::empty(),
        targets.to_set() == t.active,
    ensures
        targets.len() == 0,
{
    if targets.len() > 0 {
        assert(targets.to_set().contains(targets[0]));
    }
}

} // verus!
