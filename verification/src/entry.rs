//! The buffered-request data model: the inbound payload as captured at
//! ingestion, and the persisted queue entry that the store owns.

use vstd::prelude::*;

verus! {

/// One inbound request as the ingestion path captures it, before the store
/// assigns an identity. Headers are kept as one opaque serialized string.
#[derive(Debug)]
pub struct StoredRequest {
    pub method: String,
    pub host: String,
    pub port: u16,
    pub uri: String,
    pub headers: String,
    pub body: String,
}

/// One persisted entry awaiting delivery. Immutable after creation except for
/// its existence: deletion is the only lifecycle transition.
#[derive(Debug)]
pub struct QueueEntry {
    /// Assigned by the store on enqueue; strictly increasing, never reused.
    pub id: i64,
    pub method: String,
    pub host: String,
    pub port: u16,
    pub uri: String,
    pub headers: String,
    pub body: String,
    /// Timestamp of persistence, Unix seconds.
    pub enqueued_at: i64,
}

/// The headers column of the persisted row layout: whatever was captured at
/// ingestion, the stored value is always the empty placeholder.
pub fn persisted_headers(_captured: &str) -> (r: &'static str)
    ensures
        r@ == Seq::<char>::empty(),
{
    proof {
        reveal_strlit("");
        assert(""@ =~= Seq::<char>::empty());
    }
    ""
}

/// The entry that enqueueing `request` at time `now` under id `id` creates.
pub open spec fn queue_entry(request: StoredRequest, id: i64, now: i64) -> QueueEntry {
    QueueEntry {
        id,
        method: request.method,
        host: request.host,
        port: request.port,
        uri: request.uri,
        headers: request.headers,
        body: request.body,
        enqueued_at: now,
    }
}

} // verus!
