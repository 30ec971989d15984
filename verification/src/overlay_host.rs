//! The queues behind toasts, alerts and action sheets: each shows its first
//! entry, and entries are identified by ids handed out in increasing order.
use vstd::prelude::*;

verus! {

/// One queued overlay: its id and what to show.
#[derive(Clone, Debug)]
pub struct QueueEntry<O> {
    /// Identifies the entry for dismissal and answers.
    pub id: u64,
    /// What to show.
    pub options: O,
}

/// A queue of overlays waiting to be shown, first one showing.
pub struct OverlayQueue<O> {
    entries: Vec<QueueEntry<O>>,
    last_id: u64,
}

/// Whether `ids` increase strictly and none exceeds `last`.
pub open spec fn ids_ordered(ids: Seq<u64>, last: u64) -> bool {
    &&& forall|i: int, j: int| 0 <= i < j < ids.len() ==> ids[i] < ids[j]
    &&& forall|i: int| 0 <= i < ids.len() ==> ids[i] <= last
}

/// `entries` without those whose id is `id`, in order.
pub open spec fn without_id<O>(entries: Seq<QueueEntry<O>>, id: u64) -> Seq<QueueEntry<O>>
    decreases entries.len(),
{
    if entries.len() == 0 {
        entries
    } else if entries.last().id == id {
        without_id(entries.drop_last(), id)
    } else {
        without_id(entries.drop_last(), id).push(entries.last())
    }
}

impl<O> OverlayQueue<O> {
    /// The queued entries, first showing.
    pub closed spec fn entries(&self) -> Seq<QueueEntry<O>> {
        self.entries@
    }

    /// The ids of the queued entries, in order.
    pub open spec fn ids(&self) -> Seq<u64> {
        self.entries().map_values(|e: QueueEntry<O>| e.id)
    }

    /// The last id handed out (0 before the first).
    pub closed spec fn last_id(&self) -> u64 {
        self.last_id
    }

    /// Ids increase along the queue, and none is newer than the last handed
    /// out: every queue keeps this.
    #[verifier::type_invariant]
    closed spec fn wf(&self) -> bool {
        ids_ordered(self.entries@.map_values(|e: QueueEntry<O>| e.id), self.last_id)
    }

    /// An empty queue that has handed out no ids.
    pub fn new() -> (queue: Self)
        ensures
            ids_ordered(queue.ids(), queue.last_id()),
            queue.entries().len() == 0,
            queue.last_id() == 0,
    {
        OverlayQueue { entries: Vec::new(), last_id: 0 }
    }

    /// Queues `options` under a fresh id, which it returns. With `replace`,
    /// the entry takes the place of every entry queued, showing or waiting.
    pub fn show(&mut self, options: O, replace: bool) -> (id: u64)
        requires
            old(self).last_id() < u64::MAX,
        ensures
            ids_ordered(old(self).ids(), old(self).last_id()),
            ids_ordered(final(self).ids(), final(self).last_id()),
            id == old(self).last_id() + 1,
            final(self).last_id() == id,
            final(self).entries() == (if replace {
                Seq::empty()
            } else {
                old(self).entries()
            }).push(QueueEntry { id, options }),
    {
        proof {
            use_type_invariant(&*self);
        }
        let id = self.last_id + 1;
        let mut entries: Vec<QueueEntry<O>> = Vec::new();
        std::mem::swap(&mut entries, &mut self.entries);
        if replace {
            entries = Vec::new();
        }
        let ghost before = entries@;
        entries.push(QueueEntry { id, options });
        proof {
            let ids = entries@.map_values(|e: QueueEntry<O>| e.id);
            assert(ids == before.map_values(|e: QueueEntry<O>| e.id).push(id));
            assert forall|i: int, j: int| 0 <= i < j < ids.len() implies ids[i] < ids[j] by {
                if j < ids.len() - 1 {
                    assert(ids[i] == old(self).ids()[i]);
                    assert(ids[j] == old(self).ids()[j]);
                } else if !replace {
                    assert(ids[i] == old(self).ids()[i]);
                }
            }
            assert forall|i: int| 0 <= i < ids.len() implies ids[i] <= id by {
                if i < ids.len() - 1 && !replace {
                    assert(ids[i] == old(self).ids()[i]);
                }
            }
        }
        self.last_id = id;
        self.entries = entries;
        id
    }

    /// Removes the entry with `id`, whether showing or still queued.
    pub fn dismiss(&mut self, id: u64)
        ensures
            ids_ordered(old(self).ids(), old(self).last_id()),
            ids_ordered(final(self).ids(), final(self).last_id()),
            final(self).last_id() == old(self).last_id(),
            final(self).entries() == without_id(old(self).entries(), id),
    {
        proof {
            use_type_invariant(&*self);
        }
        let mut rest: Vec<QueueEntry<O>> = Vec::new();
        std::mem::swap(&mut rest, &mut self.entries);
        let mut kept: Vec<QueueEntry<O>> = Vec::new();
        let ghost all = rest@;
        let ghost mut taken: Seq<QueueEntry<O>> = Seq::empty();
        proof {
            assert(all =~= taken + rest@);
        }
        while rest.len() > 0
            invariant
                all == taken + rest@,
                kept@ == without_id(taken, id),
            decreases rest.len(),
        {
            let entry = rest.remove(0);
            proof {
                let next = taken.push(entry);
                assert(next.drop_last() =~= taken);
                assert(all =~= next + rest@);
                taken = next;
            }
            if entry.id != id {
                kept.push(entry);
            }
        }
        proof {
            assert(taken =~= all);
            lemma_without_id_ordered(all, id, self.last_id);
        }
        self.entries = kept;
    }

    /// The entry showing: the first queued.
    pub fn first(&self) -> (entry: Option<&QueueEntry<O>>)
        ensures
            match entry {
                Some(e) => self.entries().len() > 0 && *e == self.entries()[0],
                None => self.entries().len() == 0,
            },
    {
        if self.entries.len() > 0 {
            Some(&self.entries[0])
        } else {
            None
        }
    }

    /// The number of queued entries.
    pub fn len(&self) -> (count: usize)
        ensures
            count == self.entries().len(),
    {
        self.entries.len()
    }
}

/// Removing entries keeps ids ordered, and leaves no entry with the removed id.
pub proof fn lemma_without_id_ordered<O>(entries: Seq<QueueEntry<O>>, id: u64, last: u64)
    requires
        ids_ordered(entries.map_values(|e: QueueEntry<O>| e.id), last),
    ensures
        ids_ordered(without_id(entries, id).map_values(|e: QueueEntry<O>| e.id), last),
        forall|i: int| 0 <= i < without_id(entries, id).len() ==> without_id(entries, id)[i].id != id,
        forall|i: int|
            0 <= i < without_id(entries, id).len() ==> exists|j: int|
                0 <= j < entries.len() && entries[j] == #[trigger] without_id(entries, id)[i],
    decreases entries.len(),
{
    if entries.len() > 0 {
        let front = entries.drop_last();
        assert(front.map_values(|e: QueueEntry<O>| e.id) =~= entries.map_values(
            |e: QueueEntry<O>| e.id,
        ).drop_last());
        lemma_without_id_ordered(front, id, last);
        let w = without_id(front, id);
        let ids = entries.map_values(|e: QueueEntry<O>| e.id);
        assert forall|i: int| 0 <= i < w.len() implies exists|j: int|
            0 <= j < entries.len() && entries[j] == #[trigger] w[i] by {
            let j = choose|j: int| 0 <= j < front.len() && front[j] == w[i];
            assert(entries[j] == front[j]);
        }
        if entries.last().id != id {
            let r = w.push(entries.last());
            let rids = r.map_values(|e: QueueEntry<O>| e.id);
            assert forall|i: int, j: int| 0 <= i < j < rids.len() implies rids[i] < rids[j] by {
                if j == rids.len() - 1 {
                    let k = choose|k: int| 0 <= k < front.len() && front[k] == #[trigger] w[i];
                    assert(entries[k] == front[k]);
                    assert(ids[k] < ids[entries.len() - 1]);
                    assert(rids[i] == w[i].id);
                } else {
                    assert(rids[i] == w.map_values(|e: QueueEntry<O>| e.id)[i]);
                    assert(rids[j] == w.map_values(|e: QueueEntry<O>| e.id)[j]);
                }
            }
            assert forall|i: int| 0 <= i < rids.len() implies rids[i] <= last by {
                if i < rids.len() - 1 {
                    assert(rids[i] == w.map_values(|e: QueueEntry<O>| e.id)[i]);
                } else {
                    assert(ids[entries.len() - 1] <= last);
                }
            }
            assert forall|i: int| 0 <= i < r.len() implies exists|j: int|
                0 <= j < entries.len() && entries[j] == #[trigger] r[i] by {
                if i < r.len() - 1 {
                    assert(r[i] == w[i]);
                } else {
                    assert(entries[entries.len() - 1] == r[i]);
                }
            }
        }
    }
}

/// An id handed out by `show` is newer than every id already queued, so no
/// two queued entries ever share an id.
pub proof fn lemma_shown_id_is_fresh<O>(queue: OverlayQueue<O>)
    requires
        ids_ordered(queue.ids(), queue.last_id()),
    ensures
        forall|i: int| 0 <= i < queue.ids().len() ==> queue.ids()[i] < queue.last_id() + 1,
        forall|i: int, j: int|
            0 <= i < j < queue.ids().len() ==> queue.ids()[i] != queue.ids()[j],
{
}

} // verus!
