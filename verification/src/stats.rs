//! The statistics model produced by one refresh cycle.
//!
//! The two aggregation queries return row sets of plain values: one row per
//! distinct (event, status) pair of the invocation log, one row per distinct
//! (event, delivered) pair of the event log.  The unverified database client
//! hands those rows over as tuples in declared column order, and this module
//! shapes them into a [`StatsSnapshot`] positionally, field by field.

use vstd::prelude::*;

use crate::labels::{delivered_label, status_label};

verus! {

/// One invocation-log aggregate: how many distinct invocations of `event`
/// were observed with this `status`.  An absent status means no status was
/// recorded; it is kept absent here and only rendered as the sentinel label
/// at the gauge boundary.
#[derive(Debug)]
pub struct InvocationCountByStatus {
    pub event: String,
    pub status: Option<i32>,
    pub count: i64,
}

/// One event-log aggregate: how many distinct events named `event` were
/// observed with this `delivered` flag.
#[derive(Debug)]
pub struct EventCountByDelivery {
    pub event: String,
    pub delivered: bool,
    pub count: i64,
}

/// The complete result of one refresh cycle.  It is built fresh from both
/// row sets on every cycle, consumed by the gauge overwrite, and discarded.
#[derive(Debug)]
pub struct StatsSnapshot {
    pub invocations: Vec<InvocationCountByStatus>,
    pub events: Vec<EventCountByDelivery>,
}

impl InvocationCountByStatus {
    /// The label tuple under which this aggregate is published.
    pub open spec fn label_key(self) -> (Seq<char>, Seq<char>) {
        (self.event@, status_label(self.status))
    }
}

impl EventCountByDelivery {
    /// The label tuple under which this aggregate is published.
    pub open spec fn label_key(self) -> (Seq<char>, Seq<char>) {
        (self.event@, delivered_label(self.delivered))
    }
}

/// An aggregate whose status is absent is published under the sentinel
/// label, never under a default integer's rendering chosen some other way:
/// its label tuple is (event, `"-1"`), whatever the event and however many
/// such aggregates a snapshot holds.
pub proof fn lemma_absent_status_sentinel(entry: InvocationCountByStatus)
    requires
        entry.status is None,
    ensures
        entry.label_key() == (entry.event@, crate::labels::sentinel_label()),
        entry.label_key().1 == "-1"@,
{
    crate::labels::lemma_sentinel_label_value();
}

/// Shapes the two row sets into a snapshot.  The mapping is positional: row
/// `i` of each set becomes entry `i` of the matching sequence, with the
/// (event, status, count) and (event, delivered, count) columns carried over
/// unchanged.  Both row sets must be present: a snapshot is never built from
/// one alone.
pub fn snapshot_from_rows(
    invocation_rows: Vec<(String, Option<i32>, i64)>,
    event_rows: Vec<(String, bool, i64)>,
) -> (snap: StatsSnapshot)
    ensures
        snap.invocations@.len() == invocation_rows@.len(),
        forall|i: int|
            0 <= i < invocation_rows@.len() ==> {
                &&& (#[trigger] snap.invocations@[i]).event@ == invocation_rows@[i].0@
                &&& snap.invocations@[i].status == invocation_rows@[i].1
                &&& snap.invocations@[i].count == invocation_rows@[i].2
            },
        snap.events@.len() == event_rows@.len(),
        forall|i: int|
            0 <= i < event_rows@.len() ==> {
                &&& (#[trigger] snap.events@[i]).event@ == event_rows@[i].0@
                &&& snap.events@[i].delivered == event_rows@[i].1
                &&& snap.events@[i].count == event_rows@[i].2
            },
{
    let mut invocations: Vec<InvocationCountByStatus> = Vec::new();
    let mut k: usize = 0;
    while k < invocation_rows.len()
        invariant
            k <= invocation_rows@.len(),
            invocations@.len() == k,
            forall|i: int|
                0 <= i < k ==> {
                    &&& (#[trigger] invocations@[i]).event@ == invocation_rows@[i].0@
                    &&& invocations@[i].status == invocation_rows@[i].1
                    &&& invocations@[i].count == invocation_rows@[i].2
                },
        decreases invocation_rows@.len() - k,
    {
        let event = invocation_rows[k].0.clone();
        let status = invocation_rows[k].1;
        let count = invocation_rows[k].2;
        invocations.push(InvocationCountByStatus { event, status, count });
        k = k + 1;
    }
    let mut events: Vec<EventCountByDelivery> = Vec::new();
    let mut k: usize = 0;
    while k < event_rows.len()
        invariant
            k <= event_rows@.len(),
            events@.len() == k,
            forall|i: int|
                0 <= i < k ==> {
                    &&& (#[trigger] events@[i]).event@ == event_rows@[i].0@
                    &&& events@[i].delivered == event_rows@[i].1
                    &&& events@[i].count == event_rows@[i].2
                },
        decreases event_rows@.len() - k,
    {
        let event = event_rows[k].0.clone();
        let delivered = event_rows[k].1;
        let count = event_rows[k].2;
        events.push(EventCountByDelivery { event, delivered, count });
        k = k + 1;
    }
    StatsSnapshot { invocations, events }
}

} // verus!
