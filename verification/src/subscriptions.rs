//! The set of documents the client currently wants unsolicited
//! diagnostics and decorations for: exactly those it has open.
//!
//! A document enters the set when its overlay is added (the editor opened
//! it) and leaves when the overlay is removed (the editor closed it), so the
//! set always equals the opens without a matching later close;
//! `lemma_subscriptions_characterization` states that.

use vstd::prelude::*;

use crate::vfs::FileId;

verus! {

/// A document-lifecycle step as seen by the subscription set.
#[derive(Clone, Copy, PartialEq, Eq, Structural, Debug)]
pub enum SubEvent {
    Open(FileId),
    Close(FileId),
}

/// Effect of one lifecycle step on the subscribed set.
pub open spec fn apply_sub_event(s: Set<FileId>, e: SubEvent) -> Set<FileId> {
    match e {
        SubEvent::Open(f) => s.insert(f),
        SubEvent::Close(f) => s.remove(f),
    }
}

/// The subscribed set after a sequence of lifecycle steps, starting empty.
pub open spec fn replay_subs(events: Seq<SubEvent>) -> Set<FileId>
    decreases events.len(),
{
    if events.len() == 0 {
        Set::empty()
    } else {
        apply_sub_event(replay_subs(events.drop_last()), events.last())
    }
}

/// `f` was opened and not closed afterwards.
pub open spec fn open_without_close(events: Seq<SubEvent>, f: FileId) -> bool {
    exists|i: int|
        0 <= i < events.len() && events[i] == SubEvent::Open(f) && (forall|j: int|
            i < j < events.len() ==> events[j] != SubEvent::Close(f))
}

/// The subscriptions are exactly the documents with an open and no matching
/// later close.
pub proof fn lemma_subscriptions_characterization(events: Seq<SubEvent>)
    ensures
        forall|f: FileId| #[trigger] replay_subs(events).contains(f) <==> open_without_close(
            events,
            f,
        ),
    decreases events.len(),
{
    if events.len() > 0 {
        let prior = events.drop_last();
        let last = events.last();
        lemma_subscriptions_characterization(prior);
        assert(replay_subs(events) == apply_sub_event(replay_subs(prior), last));
        assert forall|f: FileId| #[trigger] replay_subs(events).contains(f) implies
            open_without_close(events, f) by {
            match last {
                SubEvent::Open(g) => {
                    if f == g {
                        assert(events[events.len() - 1] == SubEvent::Open(f));
                    } else {
                        assert(replay_subs(prior).contains(f));
                        let i = choose|i: int|
                            0 <= i < prior.len() && prior[i] == SubEvent::Open(f) && (forall|j: int|
                                i < j < prior.len() ==> prior[j] != SubEvent::Close(f));
                        assert(events[i] == SubEvent::Open(f));
                        assert forall|j: int| i < j < events.len() implies events[j]
                            != SubEvent::Close(f) by {
                            if j < events.len() - 1 {
                                assert(events[j] == prior[j]);
                            }
                        }
                    }
                },
                SubEvent::Close(g) => {
                    assert(f != g && replay_subs(prior).contains(f));
                    let i = choose|i: int|
                        0 <= i < prior.len() && prior[i] == SubEvent::Open(f) && (forall|j: int|
                            i < j < prior.len() ==> prior[j] != SubEvent::Close(f));
                    assert(events[i] == SubEvent::Open(f));
                    assert forall|j: int| i < j < events.len() implies events[j] != SubEvent::Close(
                        f,
                    ) by {
                        if j < events.len() - 1 {
                            assert(events[j] == prior[j]);
                        }
                    }
                },
            }
        }
        assert forall|f: FileId| open_without_close(events, f) implies replay_subs(
            events,
        ).contains(f) by {
            let i = choose|i: int|
                0 <= i < events.len() && events[i] == SubEvent::Open(f) && (forall|j: int|
                    i < j < events.len() ==> events[j] != SubEvent::Close(f));
            match last {
                SubEvent::Open(g) => {
                    if f != g {
                        assert(i < events.len() - 1);
                        assert(prior[i] == SubEvent::Open(f));
                        assert forall|j: int| i < j < prior.len() implies prior[j]
                            != SubEvent::Close(f) by {
                            assert(prior[j] == events[j]);
                        }
                        assert(open_without_close(prior, f));
                    }
                },
                SubEvent::Close(g) => {
                    assert(events[events.len() - 1] == SubEvent::Close(g));
                    assert(f != g);
                    assert(i < events.len() - 1);
                    assert(prior[i] == SubEvent::Open(f));
                    assert forall|j: int| i < j < prior.len() implies prior[j] != SubEvent::Close(
                        f,
                    ) by {
                        assert(prior[j] == events[j]);
                    }
                    assert(open_without_close(prior, f));
                },
            }
        }
    }
}

/// The currently subscribed documents.
pub struct Subscriptions {
    subs: Vec<FileId>,
}

impl Subscriptions {
    /// The subscriptions as a mathematical set.
    pub closed spec fn view(&self) -> Set<FileId> {
        self.subs@.to_set()
    }

    /// The backing vector holds no document twice.
    pub closed spec fn wf(&self) -> bool {
        forall|i: int, j: int|
            0 <= i < j < self.subs@.len() ==> self.subs@[i] != self.subs@[j]
    }

    pub fn new() -> (r: Subscriptions)
        ensures
            r.wf(),
            r@ == Set::<FileId>::empty(),
    {
        let r = Subscriptions { subs: Vec::new() };
        proof {
            assert(r.subs@.to_set() =~= Set::<FileId>::empty());
        }
        r
    }

    pub fn contains(&self, file_id: FileId) -> (r: bool)
        ensures
            r == self@.contains(file_id),
    {
        let mut i: usize = 0;
        while i < self.subs.len()
            invariant
                0 <= i <= self.subs@.len(),
                forall|k: int| 0 <= k < i ==> self.subs@[k] != file_id,
            decreases self.subs@.len() - i,
        {
            if self.subs[i] == file_id {
                return true;
            }
            i += 1;
        }
        false
    }

    /// Subscribe a document; already-subscribed documents stay as they are.
    pub fn add_sub(&mut self, file_id: FileId)
        requires
            old(self).wf(),
        ensures
            final(self).wf(),
            final(self)@ == old(self)@.insert(file_id),
    {
        if self.contains(file_id) {
            proof {
                assert(self@.insert(file_id) =~= self@);
            }
        } else {
            self.subs.push(file_id);
            proof {
                let pre = old(self).subs@;
                let post = self.subs@;
                assert forall|x: FileId| post.to_set().contains(x) implies pre.to_set().insert(
                    file_id,
                ).contains(x) by {
                    let k = choose|k: int| 0 <= k < post.len() && post[k] == x;
                    if k < pre.len() {
                        assert(pre[k] == x);
                    }
                }
                assert forall|x: FileId| pre.to_set().insert(file_id).contains(x) implies
                    post.to_set().contains(x) by {
                    if x == file_id {
                        assert(post[post.len() - 1] == x);
                    } else {
                        let k = choose|k: int| 0 <= k < pre.len() && pre[k] == x;
                        assert(post[k] == x);
                    }
                }
                assert(post.to_set() =~= pre.to_set().insert(file_id));
            }
        }
    }

    /// Unsubscribe a document; absent documents are left alone.
    pub fn remove_sub(&mut self, file_id: FileId)
        requires
            old(self).wf(),
        ensures
            final(self).wf(),
            final(self)@ == old(self)@.remove(file_id),
    {
        let mut i: usize = 0;
        while i < self.subs.len()
            invariant
                0 <= i <= self.subs@.len(),
                forall|k: int| 0 <= k < i ==> self.subs@[k] != file_id,
                self.wf(),
                self == old(self),
            decreases self.subs@.len() - i,
        {
            if self.subs[i] == file_id {
                self.subs.remove(i);
                proof {
                    let pre = old(self).subs@;
                    let post = self.subs@;
                    assert forall|x: FileId| post.to_set().contains(x) implies pre.to_set().remove(
                        file_id,
                    ).contains(x) by {
                        let k = choose|k: int| 0 <= k < post.len() && post[k] == x;
                        if k < i {
                            assert(pre[k] == x);
                        } else {
                            assert(pre[k + 1] == x);
                        }
                    }
                    assert forall|x: FileId| pre.to_set().remove(file_id).contains(x) implies
                        post.to_set().contains(x) by {
                        let k = choose|k: int| 0 <= k < pre.len() && pre[k] == x;
                        if k < i {
                            assert(post[k] == x);
                        } else {
                            assert(k != i);
                            assert(post[k - 1] == x);
                        }
                    }
                    assert(post.to_set() =~= pre.to_set().remove(file_id));
                }
                return ;
            }
            i += 1;
        }
        proof {
            assert(!self.subs@.to_set().contains(file_id));
            assert(self@.remove(file_id) =~= self@);
        }
    }

    /// Apply one document-lifecycle step.
    pub fn apply_event(&mut self, event: SubEvent)
        requires
            old(self).wf(),
        ensures
            final(self).wf(),
            final(self)@ == apply_sub_event(old(self)@, event),
    {
        match event {
            SubEvent::Open(f) => self.add_sub(f),
            SubEvent::Close(f) => self.remove_sub(f),
        }
    }

    /// Snapshot of the subscribed documents, handed to workers.
    pub fn subscriptions(&self) -> (r: Vec<FileId>)
        ensures
            r@.to_set() == self@,
    {
        let mut out: Vec<FileId> = Vec::new();
        let mut i: usize = 0;
        while i < self.subs.len()
            invariant
                0 <= i <= self.subs@.len(),
                out@ == self.subs@.subrange(0, i as int),
            decreases self.subs@.len() - i,
        {
            out.push(self.subs[i]);
            i += 1;
        }
        proof {
            assert(out@ =~= self.subs@);
        }
        out
    }
}

} // verus!
