//! The pending-request table: client-assigned integer identifiers of requests
//! for which a response is still owed.
//!
//! Identifiers are inserted when a request is accepted for dispatch and
//! removed exactly once, either when the response is delivered or when the
//! client cancels the request. The table never holds an identifier twice.

use vstd::prelude::*;

verus! {

/// Set of request identifiers with a response still owed.
pub struct PendingRequests {
    ids: Vec<u64>,
}

impl PendingRequests {
    /// The table as a mathematical set of identifiers.
    pub closed spec fn view(&self) -> Set<u64> {
        self.ids@.to_set()
    }

    /// Internal shape: the backing vector holds no identifier twice.
    /// This is the "no duplicate ids" invariant; every operation
    /// preserves it.
    pub closed spec fn wf(&self) -> bool {
        forall|i: int, j: int|
            0 <= i < j < self.ids@.len() ==> self.ids@[i] != self.ids@[j]
    }

    pub fn new() -> (r: PendingRequests)
        ensures
            r.wf(),
            r@ == Set::<u64>::empty(),
    {
        let r = PendingRequests { ids: Vec::new() };
        proof {
            assert(r.ids@.to_set() =~= Set::<u64>::empty());
        }
        r
    }

    pub fn contains(&self, id: u64) -> (r: bool)
        ensures
            r == self@.contains(id),
    {
        let mut i: usize = 0;
        while i < self.ids.len()
            invariant
                0 <= i <= self.ids@.len(),
                forall|k: int| 0 <= k < i ==> self.ids@[k] != id,
            decreases self.ids@.len() - i,
        {
            if self.ids[i] == id {
                return true;
            }
            i += 1;
        }
        false
    }

    /// Insert an identifier; reports whether it was new. The table is
    /// unchanged when the identifier was already present.
    pub fn insert(&mut self, id: u64) -> (was_new: bool)
        requires
            old(self).wf(),
        ensures
            final(self).wf(),
            was_new == !old(self)@.contains(id),
            final(self)@ == old(self)@.insert(id),
    {
        if self.contains(id) {
            proof {
                assert(self@.insert(id) =~= self@);
            }
            false
        } else {
            self.ids.push(id);
            proof {
                let pre = old(self).ids@;
                let post = self.ids@;
                assert forall|x: u64| post.to_set().contains(x) implies pre.to_set().insert(
                    id,
                ).contains(x) by {
                    let k = choose|k: int| 0 <= k < post.len() && post[k] == x;
                    if k < pre.len() {
                        assert(pre[k] == x);
                    }
                }
                assert forall|x: u64| pre.to_set().insert(id).contains(x) implies
                    post.to_set().contains(x) by {
                    if x == id {
                        assert(post[post.len() - 1] == x);
                    } else {
                        let k = choose|k: int| 0 <= k < pre.len() && pre[k] == x;
                        assert(post[k] == x);
                    }
                }
                assert(post.to_set() =~= pre.to_set().insert(id));
            }
            true
        }
    }

    /// Remove an identifier; reports whether it was present. Idempotent:
    /// removing an absent identifier leaves the table unchanged.
    pub fn remove(&mut self, id: u64) -> (was_present: bool)
        requires
            old(self).wf(),
        ensures
            final(self).wf(),
            was_present == old(self)@.contains(id),
            final(self)@ == old(self)@.remove(id),
    {
        let mut i: usize = 0;
        while i < self.ids.len()
            invariant
                0 <= i <= self.ids@.len(),
                forall|k: int| 0 <= k < i ==> self.ids@[k] != id,
                self.wf(),
                self == old(self),
            decreases self.ids@.len() - i,
        {
            if self.ids[i] == id {
                self.ids.remove(i);
                proof {
                    let pre = old(self).ids@;
                    let post = self.ids@;
                    assert(post =~= pre.subrange(0, i as int) + pre.subrange(
                        i + 1,
                        pre.len() as int,
                    ));
                    assert forall|x: u64| post.to_set().contains(x) implies pre.to_set().remove(
                        id,
                    ).contains(x) by {
                        let k = choose|k: int| 0 <= k < post.len() && post[k] == x;
                        if k < i {
                            assert(pre[k] == x);
                        } else {
                            assert(pre[k + 1] == x);
                        }
                    }
                    assert forall|x: u64| pre.to_set().remove(id).contains(x) implies
                        post.to_set().contains(x) by {
                        let k = choose|k: int| 0 <= k < pre.len() && pre[k] == x;
                        if k < i {
                            assert(post[k] == x);
                        } else {
                            assert(k != i);
                            assert(post[k - 1] == x);
                        }
                    }
                    assert(post.to_set() =~= pre.to_set().remove(id));
                }
                return true;
            }
            i += 1;
        }
        proof {
            assert(!self.ids@.to_set().contains(id));
            assert(self@.remove(id) =~= self@);
        }
        false
    }

    /// Number of identifiers in the table.
    pub fn len(&self) -> (r: usize)
        requires
            self.wf(),
        ensures
            r == self@.len(),
    {
        proof {
            self.ids@.unique_seq_to_set();
        }
        self.ids.len()
    }
}

} // verus!
