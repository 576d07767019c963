//! The queue store: ordered storage for queue entries, owner of entry
//! identity. Ids are unique and strictly increasing across the store's
//! lifetime; the oldest surviving entry is the one with the smallest id;
//! deletion is idempotent.

use vstd::prelude::*;
use crate::entry::{QueueEntry, StoredRequest, queue_entry};

verus! {

/// The entries that survive deleting `id`, in unchanged order.
pub open spec fn remove_with_id(s: Seq<QueueEntry>, id: i64) -> Seq<QueueEntry> {
    s.filter(|e: QueueEntry| e.id != id)
}

/// Some entry of `s` carries `id`.
pub open spec fn has_id(s: Seq<QueueEntry>, id: i64) -> bool {
    exists|i: int| 0 <= i < s.len() && s[i].id == id
}

/// The queue store. Entries are held oldest first; `next_id` is the id the
/// next enqueued entry will receive.
pub struct QueueStore {
    entries: Vec<QueueEntry>,
    next_id: i64,
}

impl View for QueueStore {
    type V = Seq<QueueEntry>;

    closed spec fn view(&self) -> Seq<QueueEntry> {
        self.entries@
    }
}

impl QueueStore {
    /// The id that the next enqueue will assign.
    pub closed spec fn fresh_id(&self) -> i64 {
        self.next_id
    }

    /// Well-formedness: ids are strictly increasing by position (so ascending
    /// ids reconstruct arrival order), and every id already handed out is
    /// below the fresh id.
    pub open spec fn wf(&self) -> bool {
        &&& 0 < self.fresh_id()
        &&& forall|i: int, j: int|
            #![trigger self@[i].id, self@[j].id]
            0 <= i < j < self@.len() ==> self@[i].id < self@[j].id
        &&& forall|i: int| 0 <= i < self@.len() ==> #[trigger] self@[i].id < self.fresh_id()
    }

    /// An empty store; the first enqueue will assign id 1.
    pub fn new() -> (s: Self)
        ensures
            s.wf(),
            s@ == Seq::<QueueEntry>::empty(),
            s.fresh_id() == 1,
    {
        QueueStore { entries: Vec::new(), next_id: 1 }
    }

    /// How many entries survive.
    pub fn len(&self) -> (n: usize)
        ensures
            n == self@.len(),
    {
        self.entries.len()
    }

    /// Persist a new entry: it receives the fresh id, which is strictly
    /// larger than every id the store ever handed out, and joins the queue
    /// as its newest element.
    pub fn enqueue(&mut self, request: StoredRequest, now: i64) -> (id: i64)
        requires
            old(self).wf(),
            old(self).fresh_id() < i64::MAX,
        ensures
            final(self).wf(),
            id == old(self).fresh_id(),
            final(self).fresh_id() == id + 1,
            final(self)@ == old(self)@.push(queue_entry(request, id, now)),
            forall|i: int| 0 <= i < old(self)@.len() ==> #[trigger] old(self)@[i].id < id,
    {
        let id = self.next_id;
        let entry = QueueEntry {
            id,
            method: request.method,
            host: request.host,
            port: request.port,
            uri: request.uri,
            headers: request.headers,
            body: request.body,
            enqueued_at: now,
        };
        self.entries.push(entry);
        self.next_id = self.next_id + 1;
        id
    }

    /// The entry with the smallest surviving id, without removing it;
    /// nothing exactly when the queue is empty.
    pub fn peek_oldest(&self) -> (r: Option<&QueueEntry>)
        requires
            self.wf(),
        ensures
            match r {
                None => self@.len() == 0,
                Some(e) => {
                    &&& self@.len() > 0
                    &&& *e == self@[0]
                    &&& forall|i: int| 0 <= i < self@.len() ==> e.id <= #[trigger] self@[i].id
                },
            },
    {
        if self.entries.len() == 0 {
            None
        } else {
            Some(&self.entries[0])
        }
    }

    /// Whether an entry with `id` survives.
    pub fn contains_id(&self, id: i64) -> (r: bool)
        ensures
            r == has_id(self@, id),
    {
        let n = self.entries.len();
        let mut i: usize = 0;
        while i < n
            invariant
                i <= n,
                n == self@.len(),
                forall|k: int| 0 <= k < i ==> #[trigger] self@[k].id != id,
            decreases n - i,
        {
            if self.entries[i].id == id {
                return true;
            }
            i = i + 1;
        }
        false
    }

    /// Remove the entry with `id` if one survives; removing an absent id is
    /// a no-op, never an error. Order and identity of the other entries are
    /// untouched, and the fresh id never goes backwards.
    pub fn delete(&mut self, id: i64)
        requires
            old(self).wf(),
        ensures
            final(self).wf(),
            final(self).fresh_id() == old(self).fresh_id(),
            final(self)@ == remove_with_id(old(self)@, id),
    {
        let ghost s0 = self.entries@;
        let n = self.entries.len();
        let mut i: usize = 0;
        while i < n
            invariant
                i <= n,
                n == self@.len(),
                self@ == s0,
                old(self).wf(),
                s0 == old(self)@,
                self.fresh_id() == old(self).fresh_id(),
                forall|k: int| 0 <= k < i ==> #[trigger] s0[k].id != id,
            decreases n - i,
        {
            if self.entries[i].id == id {
                proof {
                    assert(s0[i as int].id == id);
                }
                self.entries.remove(i);
                proof {
                    assert forall|k: int| 0 <= k < s0.len() && k != i implies #[trigger] s0[k].id
                        != id by {
                        if k > i {
                            assert(old(self)@[i as int].id < old(self)@[k].id);
                        }
                    }
                    lemma_remove_with_id_found(s0, id, i as int);
                    s0.remove_ensures(i as int);
                    assert(self@ =~= remove_with_id(s0, id));
                }
                return;
            }
            i = i + 1;
        }
        proof {
            lemma_remove_with_id_absent_all(s0, id);
        }
    }
}

/// Deleting an id that no entry carries keeps the sequence whole.
proof fn lemma_remove_with_id_absent_all(s: Seq<QueueEntry>, id: i64)
    requires
        forall|k: int| 0 <= k < s.len() ==> #[trigger] s[k].id != id,
    ensures
        remove_with_id(s, id) == s,
    decreases s.len(),
{
    reveal(Seq::filter);
    if s.len() == 0 {
        assert(remove_with_id(s, id) =~= s);
    } else {
        lemma_remove_with_id_absent_all(s.drop_last(), id);
        assert(s[s.len() - 1].id != id);
        assert(remove_with_id(s, id) =~= s);
    }
}

/// Deleting an id that exactly the entry at position `i` carries removes
/// exactly that entry.
pub(crate) proof fn lemma_remove_with_id_found(s: Seq<QueueEntry>, id: i64, i: int)
    requires
        0 <= i < s.len(),
        s[i].id == id,
        forall|k: int| 0 <= k < s.len() && k != i ==> #[trigger] s[k].id != id,
    ensures
        remove_with_id(s, id) == s.remove(i),
    decreases s.len(),
{
    reveal(Seq::filter);
    if i == s.len() - 1 {
        lemma_remove_with_id_absent_all(s.drop_last(), id);
        assert(s.remove(i) =~= s.drop_last());
    } else {
        assert(s.drop_last()[i].id == id);
        lemma_remove_with_id_found(s.drop_last(), id, i);
        assert(s[s.len() - 1].id != id);
        s.remove_ensures(i);
        s.drop_last().remove_ensures(i);
        assert(remove_with_id(s, id) =~= s.remove(i));
    }
}

/// No entry of a queue that id `id` was deleted from still carries `id`.
proof fn lemma_remove_with_id_no_match(s: Seq<QueueEntry>, id: i64)
    ensures
        forall|k: int| 0 <= k < remove_with_id(s, id).len() ==> #[trigger] remove_with_id(
            s,
            id,
        )[k].id != id,
    decreases s.len(),
{
    reveal(Seq::filter);
    if s.len() > 0 {
        lemma_remove_with_id_no_match(s.drop_last(), id);
    }
}

/// Law: within a well-formed store, surviving ids are pairwise distinct and
/// strictly ascending by position, so ascending ids reconstruct arrival order.
pub proof fn lemma_store_ids_unique(s: &QueueStore)
    requires
        s.wf(),
    ensures
        forall|i: int, j: int|
            #![trigger s@[i].id, s@[j].id]
            0 <= i < j < s@.len() ==> s@[i].id != s@[j].id,
{
}

/// Law: ids come back from enqueue strictly increasing in call-completion
/// order. One enqueue returns the store's fresh id and leaves a strictly
/// larger fresh id behind; no operation lowers the fresh id; so a later
/// enqueue — `pre2` being any store the run reaches after the first call —
/// returns a strictly larger id.
pub proof fn lemma_enqueue_ids_increase(
    pre1: QueueStore,
    post1: QueueStore,
    pre2: QueueStore,
    id1: i64,
    id2: i64,
)
    requires
        pre1.wf(),
        id1 == pre1.fresh_id(),
        post1.fresh_id() == id1 + 1,
        post1.fresh_id() <= pre2.fresh_id(),
        id2 == pre2.fresh_id(),
    ensures
        id1 < id2,
{
}

/// Law: deletion is idempotent — deleting the same id twice leaves exactly
/// what deleting it once leaves.
pub proof fn lemma_delete_idempotent(s: Seq<QueueEntry>, id: i64)
    ensures
        remove_with_id(remove_with_id(s, id), id) == remove_with_id(s, id),
{
    lemma_remove_with_id_no_match(s, id);
    lemma_remove_with_id_absent_all(remove_with_id(s, id), id);
}

/// Law: deleting an id that no surviving entry carries changes nothing.
pub proof fn lemma_delete_absent(s: Seq<QueueEntry>, id: i64)
    requires
        !has_id(s, id),
    ensures
        remove_with_id(s, id) == s,
{
    assert forall|k: int| 0 <= k < s.len() implies #[trigger] s[k].id != id by {
        assert(!(0 <= k < s.len() && s[k].id == id));
    }
    lemma_remove_with_id_absent_all(s, id);
}

} // verus!
