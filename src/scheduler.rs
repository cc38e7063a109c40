//! The bookkeeping of the polling loop: each process id is handled once,
//! the first time an enumeration shows it, and never again.
use vstd::prelude::*;

verus! {

/// The set of process ids handled so far. It only grows.
pub struct PollingScheduler {
    seen: Vec<i32>,
}

/// The ids of `pids` that are new: not in `seen` and not earlier in `pids`,
/// in the order of `pids`.
pub open spec fn fresh_pids(seen: Set<i32>, pids: Seq<i32>) -> Seq<i32>
    decreases pids.len(),
{
    if pids.len() == 0 {
        Seq::empty()
    } else {
        let prev = fresh_pids(seen, pids.drop_last());
        let x = pids.last();
        if seen.contains(x) || pids.drop_last().contains(x) {
            prev
        } else {
            prev.push(x)
        }
    }
}

/// The ids handled after an enumeration of `pids` that started from `seen`.
pub open spec fn seen_after(seen: Set<i32>, pids: Seq<i32>) -> Set<i32> {
    Set::new(|p: i32| seen.contains(p) || pids.contains(p))
}

impl View for PollingScheduler {
    type V = Set<i32>;

    closed spec fn view(&self) -> Set<i32> {
        Set::new(|p: i32| self.seen@.contains(p))
    }
}

impl PollingScheduler {
    /// A scheduler that has handled nothing yet.
    pub fn new() -> (r: PollingScheduler)
        ensures
            r@ == Set::<i32>::empty(),
    {
        let r = PollingScheduler { seen: Vec::new() };
        assert(r@ =~= Set::<i32>::empty());
        r
    }

    /// Whether `pid` has been handled already.
    pub fn has_seen(&self, pid: i32) -> (r: bool)
        ensures
            r == self@.contains(pid),
    {
        let mut i: usize = 0;
        while i < self.seen.len()
            invariant
                0 <= i <= self.seen@.len(),
                forall|j: int| 0 <= j < i ==> self.seen@[j] != pid,
            decreases self.seen@.len() - i,
        {
            if self.seen[i] == pid {
                return true;
            }
            i = i + 1;
        }
        false
    }

    /// Marks `pid` handled; says whether it was new.
    pub fn observe(&mut self, pid: i32) -> (r: bool)
        ensures
            r == !old(self)@.contains(pid),
            final(self)@ == old(self)@.insert(pid),
    {
        if self.has_seen(pid) {
            assert(self@ =~= old(self)@.insert(pid));
            false
        } else {
            self.seen.push(pid);
            proof {
                assert(self.seen@.last() == pid);
                assert forall|p: i32| self@.contains(p) == old(self)@.insert(pid).contains(p) by {
                    if old(self).seen@.contains(p) {
                        let j = choose|j: int| 0 <= j < old(self).seen@.len() && old(self).seen@[j] == p;
                        assert(self.seen@[j] == p);
                    }
                    if self.seen@.contains(p) && p != pid {
                        let j = choose|j: int| 0 <= j < self.seen@.len() && self.seen@[j] == p;
                        assert(old(self).seen@[j] == p);
                    }
                }
                assert(self@ =~= old(self)@.insert(pid));
            }
            true
        }
    }

    /// Takes one enumeration of live process ids and returns those that
    /// have not been handled before, in enumeration order, each once. All of
    /// them count as handled afterwards.
    pub fn new_pids(&mut self, pids: &Vec<i32>) -> (r: Vec<i32>)
        ensures
            r@ == fresh_pids(old(self)@, pids@),
            final(self)@ == seen_after(old(self)@, pids@),
    {
        let ghost start = self@;
        let mut out: Vec<i32> = Vec::new();
        let mut i: usize = 0;
        while i < pids.len()
            invariant
                0 <= i <= pids@.len(),
                start == old(self)@,
                self@ == seen_after(start, pids@.subrange(0, i as int)),
                out@ == fresh_pids(start, pids@.subrange(0, i as int)),
            decreases pids@.len() - i,
        {
            let pid = pids[i];
            let ghost pre = pids@.subrange(0, i as int);
            let ghost next = pids@.subrange(0, i + 1);
            proof {
                assert(next.drop_last() =~= pre);
                assert(next.last() == pid);
                assert(self@.contains(pid) == (start.contains(pid) || pre.contains(pid)));
            }
            if self.observe(pid) {
                out.push(pid);
            }
            proof {
                assert forall|p: i32| self@.contains(p) == seen_after(start, next).contains(p) by {
                    if pre.contains(p) {
                        let j = choose|j: int| 0 <= j < pre.len() && pre[j] == p;
                        assert(next[j] == p);
                    }
                    if next.contains(p) && p != pid {
                        let j = choose|j: int| 0 <= j < next.len() && next[j] == p;
                        assert(pre[j] == p);
                    }
                }
                assert(self@ =~= seen_after(start, next));
            }
            i = i + 1;
        }
        assert(pids@.subrange(0, i as int) =~= pids@);
        out
    }
}

/// Every id that `fresh_pids` returns is outside `seen`.
pub proof fn lemma_fresh_pids_unseen(seen: Set<i32>, pids: Seq<i32>, p: i32)
    ensures
        fresh_pids(seen, pids).contains(p) ==> !seen.contains(p) && pids.contains(p),
    decreases pids.len(),
{
    if pids.len() > 0 {
        lemma_fresh_pids_unseen(seen, pids.drop_last(), p);
        let prev = fresh_pids(seen, pids.drop_last());
        if fresh_pids(seen, pids).contains(p) {
            if prev.contains(p) {
                let j = choose|j: int| 0 <= j < pids.drop_last().len() && pids.drop_last()[j] == p;
                assert(pids[j] == p);
            } else {
                let k = choose|k: int| 0 <= k < fresh_pids(seen, pids).len() && fresh_pids(seen, pids)[k] == p;
                assert(k == prev.len());
                assert(pids[pids.len() - 1] == p);
            }
        }
    }
}

/// An id that one enumeration showed is never handed out again by a later
/// one, whatever that later enumeration holds.
pub proof fn lemma_no_second_enforcement(seen: Set<i32>, first: Seq<i32>, second: Seq<i32>, p: i32)
    requires
        first.contains(p),
    ensures
        !fresh_pids(seen_after(seen, first), second).contains(p),
{
    lemma_fresh_pids_unseen(seen_after(seen, first), second, p);
}

} // verus!
