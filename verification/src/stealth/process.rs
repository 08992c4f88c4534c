use vstd::prelude::*;

verus! {

/// The registry of browser process ids that are still alive and should be
/// terminated on an emergency cleanup. Ids are kept in registration order;
/// an id registered twice appears twice.
pub struct ProcessRegistry {
    pids: Vec<u32>,
}

impl View for ProcessRegistry {
    type V = Seq<u32>;

    closed spec fn view(&self) -> Seq<u32> {
        self.pids@
    }
}

/// The registry after every occurrence of `pid` has been removed.
pub open spec fn without_pid(pids: Seq<u32>, pid: u32) -> Seq<u32> {
    pids.filter(other_than(pid))
}

/// The predicate that holds of every id but `pid`.
pub open spec fn other_than(pid: u32) -> spec_fn(u32) -> bool {
    |p: u32| p != pid
}

impl ProcessRegistry {
    /// An empty registry.
    pub fn new() -> (r: ProcessRegistry)
        ensures
            r@ == Seq::<u32>::empty(),
    {
        ProcessRegistry { pids: Vec::new() }
    }

    /// The registered ids, in registration order.
    pub fn pids(&self) -> (r: Vec<u32>)
        ensures
            r@ == self@,
    {
        self.pids.clone()
    }

    /// Records `pid` for a later cleanup.
    pub fn register(&mut self, pid: u32)
        ensures
            final(self)@ == old(self)@.push(pid),
    {
        self.pids.push(pid);
    }

    /// Forgets every occurrence of `pid`, keeping the other ids in order.
    pub fn unregister(&mut self, pid: u32)
        ensures
            final(self)@ == without_pid(old(self)@, pid),
    {
        let ghost pred = other_than(pid);
        let mut kept: Vec<u32> = Vec::new();
        let n = self.pids.len();
        let mut i: usize = 0;
        while i < n
            invariant
                n == self.pids@.len(),
                i <= n,
                pred == other_than(pid),
                kept@ == self.pids@.take(i as int).filter(pred),
            decreases n - i,
        {
            reveal_with_fuel(Seq::<_>::filter, 1);
            let p = self.pids[i];
            assert(self.pids@.take(i + 1).drop_last() =~= self.pids@.take(i as int));
            assert(self.pids@.take(i + 1).last() == p);
            if p != pid {
                kept.push(p);
            }
            i = i + 1;
        }
        proof {
            assert(self.pids@.take(n as int) =~= self.pids@);
        }
        self.pids = kept;
    }

    /// Empties the registry and hands back every id it held, in registration
    /// order: the ids whose processes are to be terminated.
    pub fn cleanup(&mut self) -> (r: Vec<u32>)
        ensures
            r@ == old(self)@,
            final(self)@ == Seq::<u32>::empty(),
    {
        cleanup_all(self)
    }
}

/// The lifecycle record of one browser process. When the owner lets go of
/// it, the process is terminated if `auto_kill` is set, and its id leaves the
/// registry either way.
pub struct ProcessGuard {
    pub pid: u32,
    pub auto_kill: bool,
}

impl ProcessGuard {
    /// Releases the guarded process: removes its id from `registry` and
    /// returns the id to terminate, which is present exactly when the guard
    /// was set to kill its process.
    pub fn release(&self, registry: &mut ProcessRegistry) -> (kill: Option<u32>)
        ensures
            kill == (if self.auto_kill { Some(self.pid) } else { None::<u32> }),
            final(registry)@ == without_pid(old(registry)@, self.pid),
    {
        registry.unregister(self.pid);
        if self.auto_kill {
            Some(self.pid)
        } else {
            None
        }
    }
}

/// Unregistering an id right after registering it restores the registry,
/// when the id was not registered before.
pub proof fn lemma_register_then_unregister(pids: Seq<u32>, pid: u32)
    requires
        !pids.contains(pid),
    ensures
        without_pid(pids.push(pid), pid) == pids,
{
    lemma_without_absent(pids, pid);
    reveal_with_fuel(Seq::<_>::filter, 1);
    assert(pids.push(pid).drop_last() =~= pids);
}

/// Removing an id that is not registered changes nothing.
pub proof fn lemma_without_absent(pids: Seq<u32>, pid: u32)
    requires
        !pids.contains(pid),
    ensures
        without_pid(pids, pid) == pids,
    decreases pids.len(),
{
    reveal_with_fuel(Seq::<_>::filter, 1);
    if pids.len() > 0 {
        assert(!pids.drop_last().contains(pid)) by {
            if pids.drop_last().contains(pid) {
                let k = choose|k: int| 0 <= k < pids.drop_last().len() && pids.drop_last()[k] == pid;
                assert(pids[k] == pid);
            }
        }
        lemma_without_absent(pids.drop_last(), pid);
        assert(pids.last() != pid) by {
            assert(pids[pids.len() - 1] == pids.last());
        }
        assert(pids.drop_last().push(pids.last()) =~= pids);
    }
}

/// After an id is unregistered it is no longer registered, every other id
/// keeps its registration, and unregistering it again changes nothing.
pub proof fn lemma_unregister_effect(pids: Seq<u32>, pid: u32, other: u32)
    requires
        other != pid,
    ensures
        !without_pid(pids, pid).contains(pid),
        without_pid(pids, pid).contains(other) == pids.contains(other),
        without_pid(without_pid(pids, pid), pid) == without_pid(pids, pid),
{
    broadcast use Seq::lemma_filter_pred, Seq::lemma_filter_contains, Seq::lemma_filter_contains_rev;
    let kept = without_pid(pids, pid);
    if kept.contains(pid) {
        let k = choose|k: int| 0 <= k < kept.len() && kept[k] == pid;
        assert(other_than(pid)(kept[k]));
    }
    if pids.contains(other) {
        let k = choose|k: int| 0 <= k < pids.len() && pids[k] == other;
        assert(other_than(pid)(pids[k]));
    }
    lemma_without_absent(kept, pid);
}

/// Empties `registry` and returns every id it held, in registration order.
/// The caller terminates each returned process.
pub fn cleanup_all(registry: &mut ProcessRegistry) -> (r: Vec<u32>)
    ensures
        r@ == old(registry)@,
        final(registry)@ == Seq::<u32>::empty(),
{
    let mut taken: Vec<u32> = Vec::new();
    std::mem::swap(&mut taken, &mut registry.pids);
    taken
}

} // verus!
