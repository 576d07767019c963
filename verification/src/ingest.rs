//! The ingestion adapter: every accepted inbound request becomes a queue
//! entry, whatever its later replay outcome. Ingestion is fire-and-forget
//! from the original caller's side; only the persisting step lives here.

use vstd::prelude::*;
use crate::entry::{StoredRequest, queue_entry};
use crate::store::QueueStore;

verus! {

/// Persist one inbound request at time `now`: the entry always joins the
/// queue, carrying the captured fields verbatim, and the assigned id is the
/// store's fresh id.
pub fn ingest_request(store: &mut QueueStore, request: StoredRequest, now: i64) -> (id: i64)
    requires
        old(store).wf(),
        old(store).fresh_id() < i64::MAX,
    ensures
        final(store).wf(),
        id == old(store).fresh_id(),
        final(store).fresh_id() == id + 1,
        final(store)@ == old(store)@.push(queue_entry(request, id, now)),
{
    store.enqueue(request, now)
}

} // verus!
