//! Thread-enumeration bookkeeping: the visited-id record and one pass over a
//! process thread snapshot.
//!
//! The runtime takes a snapshot, runs a pass, performs the per-thread action
//! on each newly discovered id (suspend, rewrite registers, resume — best
//! effort), and repeats with a fresh snapshot until a pass discovers nothing
//! new.  Convergence on a quiescent pass gives the at-least-once guarantee:
//! every thread id alive in the final snapshot was visited.

use vstd::prelude::*;

verus! {

/// The set of thread ids already visited during one enumeration.  The
/// caller's own id and the worker's are never inserted, because the pass
/// skips the caller and the worker is the caller.
pub struct VisitedThreads {
    ids: Vec<u32>,
}

impl VisitedThreads {
    /// No id is recorded twice: each discovered thread gets its action once.
    pub closed spec fn wf(self) -> bool {
        forall|a: int, b: int| 0 <= a < b < self.ids@.len() ==> self.ids@[a] != self.ids@[b]
    }

    /// Whether an id has been visited.
    pub closed spec fn contains(self, id: u32) -> bool {
        self.ids@.contains(id)
    }

    /// A fresh enumeration: nothing visited yet.
    pub fn new() -> (s: Self)
        ensures
            s.wf(),
            forall|id: u32| !s.contains(id),
    {
        let s = VisitedThreads { ids: Vec::new() };
        proof {
            assert forall|id: u32| !s.contains(id) by {
                assert(s.ids@.len() == 0);
            }
        }
        s
    }

    /// How many distinct ids have been visited.
    pub closed spec fn count(self) -> nat {
        self.ids@.len()
    }

    /// How many distinct ids have been visited.
    pub fn len(&self) -> (n: usize)
        ensures
            n == self.count(),
    {
        self.ids.len()
    }

    /// Linear membership test.
    pub fn mem(&self, id: u32) -> (r: bool)
        ensures
            r == self.contains(id),
    {
        let mut j: usize = 0;
        while j < self.ids.len()
            invariant
                j <= self.ids@.len(),
                forall|k: int| 0 <= k < j ==> self.ids@[k] != id,
            decreases self.ids@.len() - j,
        {
            if self.ids[j] == id {
                return true;
            }
            j += 1;
        }
        false
    }

    /// Record a newly discovered id.
    fn insert(&mut self, id: u32)
        requires
            old(self).wf(),
            !old(self).contains(id),
        ensures
            final(self).wf(),
            forall|x: u32| final(self).contains(x) <==> old(self).contains(x) || x == id,
    {
        self.ids.push(id);
        proof {
            let o = old(self).ids@;
            let n = self.ids@;
            assert forall|a: int, b: int| 0 <= a < b < n.len() implies n[a] != n[b] by {
                if b < o.len() {
                    assert(o[a] != o[b]);
                } else {
                    assert(n[b] == id);
                    assert(n[a] == o[a]);
                    assert(!o.contains(id));
                    assert(o[a] != id);
                }
            }
            assert forall|x: u32| self.contains(x) <==> old(self).contains(x) || x == id by {
                if n.contains(x) {
                    let k = choose|k: int| 0 <= k < n.len() && n[k] == x;
                    if k < o.len() {
                        assert(o.contains(x));
                    } else {
                        assert(x == id);
                    }
                }
                if o.contains(x) {
                    let k = choose|k: int| 0 <= k < o.len() && o[k] == x;
                    assert(n[k] == x);
                    assert(n.contains(x));
                }
                if x == id {
                    assert(n[o.len() as int] == x);
                    assert(n.contains(x));
                }
            }
        }
    }
}

/// One pass over a fresh snapshot of the process's threads.  Every id in the
/// snapshot other than the caller's own ends up visited; the ids seen for
/// the first time come back so the caller can run the per-thread action on
/// them, once each.  When the returned list is empty the pass was quiescent:
/// every id alive in that snapshot, bar the caller, had already been
/// visited, so enumeration has converged.
pub fn enumeration_pass(visited: &mut VisitedThreads, snapshot: &Vec<u32>, caller_id: u32) -> (
    new_ids: Vec<u32>)
    requires
        old(visited).wf(),
    ensures
        final(visited).wf(),
        forall|id: u32|
            final(visited).contains(id) <==> old(visited).contains(id) || (snapshot@.contains(id)
                && id != caller_id),
        forall|id: u32|
            new_ids@.contains(id) <==> (snapshot@.contains(id) && id != caller_id && !old(
                visited,
            ).contains(id)),
        new_ids@.len() == 0 ==> forall|id: u32|
            snapshot@.contains(id) && id != caller_id ==> old(visited).contains(id),
{
    let mut new_ids: Vec<u32> = Vec::new();
    let mut idx: usize = 0;
    while idx < snapshot.len()
        invariant
            visited.wf(),
            idx <= snapshot@.len(),
            forall|id: u32|
                visited.contains(id) <==> old(visited).contains(id) || (exists|k: int|
                    0 <= k < idx && snapshot@[k] == id && id != caller_id),
            forall|id: u32|
                new_ids@.contains(id) <==> ((exists|k: int|
                    0 <= k < idx && snapshot@[k] == id && id != caller_id) && !old(
                    visited,
                ).contains(id)),
        decreases snapshot@.len() - idx,
    {
        let tid = snapshot[idx];
        let ghost pre_visited = *visited;
        let ghost pre_new = new_ids@;
        if tid != caller_id && !visited.mem(tid) {
            visited.insert(tid);
            new_ids.push(tid);
        }
        proof {
            assert forall|id: u32|
                visited.contains(id) <==> old(visited).contains(id) || (exists|k: int|
                    0 <= k < idx + 1 && snapshot@[k] == id && id != caller_id) by {
                if visited.contains(id) && !pre_visited.contains(id) {
                    assert(id == tid);
                    assert(snapshot@[idx as int] == id);
                }
                if pre_visited.contains(id) {
                    assert(visited.contains(id));
                }
                if exists|k: int| 0 <= k < idx + 1 && snapshot@[k] == id && id != caller_id {
                    let k = choose|k: int|
                        0 <= k < idx + 1 && snapshot@[k] == id && id != caller_id;
                    if k < idx {
                        assert(pre_visited.contains(id));
                    } else {
                        assert(id == tid && id != caller_id);
                        assert(visited.contains(id));
                    }
                }
            }
            assert forall|id: u32|
                new_ids@.contains(id) <==> ((exists|k: int|
                    0 <= k < idx + 1 && snapshot@[k] == id && id != caller_id) && !old(
                    visited,
                ).contains(id)) by {
                if new_ids@.contains(id) && !pre_new.contains(id) {
                    assert(new_ids@ == pre_new.push(tid));
                    let k = choose|k: int| 0 <= k < new_ids@.len() && new_ids@[k] == id;
                    assert(id == tid);
                    assert(snapshot@[idx as int] == id);
                }
                if pre_new.contains(id) {
                    let k = choose|k: int| 0 <= k < pre_new.len() && pre_new[k] == id;
                    assert(new_ids@[k] == id);
                    assert(new_ids@.contains(id));
                }
                if (exists|k: int| 0 <= k < idx + 1 && snapshot@[k] == id && id != caller_id)
                    && !old(visited).contains(id) {
                    let k = choose|k: int|
                        0 <= k < idx + 1 && snapshot@[k] == id && id != caller_id;
                    if k < idx {
                        assert(pre_new.contains(id));
                        assert(new_ids@.contains(id));
                    } else {
                        assert(id == tid);
                        if !pre_visited.contains(id) {
                            assert(new_ids@ == pre_new.push(tid));
                            assert(new_ids@[pre_new.len() as int] == tid);
                            assert(new_ids@.contains(id));
                        } else {
                            assert(old(visited).contains(id) || (exists|k2: int|
                                0 <= k2 < idx && snapshot@[k2] == id && id != caller_id));
                            assert(pre_new.contains(id));
                            assert(new_ids@.contains(id));
                        }
                    }
                }
            }
        }
        idx += 1;
    }
    proof {
        assert forall|id: u32|
            snapshot@.contains(id) && id != caller_id implies (exists|k: int|
            0 <= k < snapshot@.len() && snapshot@[k] == id && id != caller_id) by {
            let k = choose|k: int| 0 <= k < snapshot@.len() && snapshot@[k] == id;
            assert(snapshot@[k] == id && id != caller_id);
        }
    }
    new_ids
}

} // verus!
