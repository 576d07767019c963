//! The dispatcher's per-cycle policy: once per tick, the oldest surviving
//! entry is delivered (if any), then removed or kept according to two
//! independent configuration flags. Only the policy decision lives here; the
//! ticker and the outbound call are the surrounding process's work, which
//! hands the delivery outcome in as a plain boolean event.

use vstd::prelude::*;
use crate::store::{QueueStore, remove_with_id};

verus! {

/// The two independent removal flags of the dispatcher.
#[derive(Debug, Clone, Copy)]
pub struct DispatchPolicy {
    /// Remove the entry when its delivery was confirmed successful.
    pub require_success: bool,
    /// Remove the entry unconditionally, whatever the delivery outcome.
    pub remove_on_failure: bool,
}

/// Whether the removal policy deletes the attempted entry, given the
/// delivery outcome. The two flags act independently: either, both, or
/// neither may fire. With `success` true but both flags false the entry
/// stays and is re-delivered on the next cycle.
pub open spec fn removal_due(success: bool, policy: DispatchPolicy) -> bool {
    (success && policy.require_success) || policy.remove_on_failure
}

/// The removal decision as the dispatcher takes it.
pub fn should_remove(success: bool, policy: &DispatchPolicy) -> (r: bool)
    ensures
        r == removal_due(success, *policy),
{
    (success && policy.require_success) || policy.remove_on_failure
}

/// Apply the removal policy to the attempted entry: each flag deletes
/// independently, so both may fire in the same cycle — deletion being
/// idempotent, the effect is one removal.
pub fn settle_delivery(store: &mut QueueStore, id: i64, success: bool, policy: &DispatchPolicy)
    requires
        old(store).wf(),
    ensures
        final(store).wf(),
        final(store).fresh_id() == old(store).fresh_id(),
        final(store)@ == if removal_due(success, *policy) {
            remove_with_id(old(store)@, id)
        } else {
            old(store)@
        },
{
    if success && policy.require_success {
        store.delete(id);
    }
    if policy.remove_on_failure {
        proof {
            if success && policy.require_success {
                crate::store::lemma_delete_idempotent(old(store)@, id);
            }
        }
        store.delete(id);
    }
}

/// One dispatch cycle, given the Forwarder's outcome for the attempted
/// delivery: peek the oldest surviving entry; if there is none the cycle is
/// a no-op; otherwise apply the removal policy to it. Returns the id of the
/// entry whose uri and body were handed to the Forwarder — always the oldest,
/// so the queue drains at most one entry per cycle, oldest first.
pub fn dispatch_cycle(store: &mut QueueStore, success: bool, policy: &DispatchPolicy) -> (attempted:
    Option<i64>)
    requires
        old(store).wf(),
    ensures
        final(store).wf(),
        final(store).fresh_id() == old(store).fresh_id(),
        match attempted {
            None => old(store)@.len() == 0 && final(store)@ == old(store)@,
            Some(id) => {
                &&& old(store)@.len() > 0
                &&& id == old(store)@[0].id
                &&& final(store)@ == if removal_due(success, *policy) {
                    old(store)@.drop_first()
                } else {
                    old(store)@
                }
            },
        },
{
    let head_id: i64;
    match store.peek_oldest() {
        None => {
            return None;
        },
        Some(entry) => {
            head_id = entry.id;
        },
    }
    proof {
        lemma_remove_head(old(store)@, head_id);
    }
    settle_delivery(store, head_id, success, policy);
    Some(head_id)
}

/// The queue contents after `k` cycles that each removed the oldest entry.
pub open spec fn drained(s: Seq<crate::entry::QueueEntry>, k: nat) -> Seq<crate::entry::QueueEntry>
    decreases k,
{
    if k == 0 {
        s
    } else {
        drained(s, (k - 1) as nat).drop_first()
    }
}

/// Law: cycles that each remove the oldest entry drain the queue in arrival
/// order, one entry per cycle — after `k` of them exactly the first `k`
/// entries are gone, and after as many cycles as there are entries the queue
/// is empty.
pub proof fn lemma_cycles_drain(s: Seq<crate::entry::QueueEntry>, k: nat)
    requires
        k <= s.len(),
    ensures
        drained(s, k) == s.skip(k as int),
        k == s.len() ==> drained(s, k) == Seq::<crate::entry::QueueEntry>::empty(),
    decreases k,
{
    if k == 0 {
        assert(s.skip(0) =~= s);
    } else {
        lemma_cycles_drain(s, (k - 1) as nat);
        assert(s.skip(k - 1).drop_first() =~= s.skip(k as int));
    }
    if k == s.len() {
        assert(s.skip(k as int) =~= Seq::<crate::entry::QueueEntry>::empty());
    }
}

/// Deleting the head's id removes exactly the head.
proof fn lemma_remove_head(s: Seq<crate::entry::QueueEntry>, id: i64)
    requires
        s.len() > 0,
        id == s[0].id,
        forall|i: int, j: int| #![trigger s[i].id, s[j].id] 0 <= i < j < s.len() ==> s[i].id < s[j].id,
    ensures
        remove_with_id(s, id) == s.drop_first(),
{
    assert forall|k: int| 0 <= k < s.len() && k != 0 implies #[trigger] s[k].id != id by {
        assert(s[0].id < s[k].id);
    }
    crate::store::lemma_remove_with_id_found(s, id, 0);
    assert(s.remove(0) =~= s.drop_first());
}

} // verus!
