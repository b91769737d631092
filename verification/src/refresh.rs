//! The scrape-triggered refresh loop, as an explicit state machine.
//!
//! The loop owns the gauge state and alternates between two phases: idle,
//! waiting for a scrape signal, and refreshing, while the two aggregation
//! queries run.  The unverified outside loop performs the actions this
//! machine asks for — run the queries, keep the requester blocked, let the
//! scrape be served, stop the process — and reports each outcome back as
//! the next event.  A scrape is released only by the completed fetch of the
//! cycle it triggered, so served values always reflect a fully applied
//! snapshot taken no earlier than the request's arrival.

use vstd::prelude::*;

use crate::gauges::{event_gauge_map, invocation_gauge_map, GaugeState};
use crate::stats::StatsSnapshot;

verus! {

/// The two phases of the refresh loop.
#[derive(Debug, Clone, Copy, PartialEq, Eq, Structural)]
pub enum RefreshPhase {
    /// Waiting for the next scrape signal.
    Idle,
    /// A fetch-and-apply cycle is under way.
    Refreshing,
}

/// What the outside collaborators report to the loop.
pub enum RefreshEvent {
    /// The exposition endpoint received a scrape request.
    ScrapeRequested,
    /// Both aggregation queries completed and were shaped into a snapshot.
    FetchSucceeded(StatsSnapshot),
    /// A query failed; no snapshot exists, not even a partial one.
    FetchFailed,
}

/// What the loop asks the outside collaborators to do next.
#[derive(Debug, Clone, Copy, PartialEq, Eq, Structural)]
pub enum RefreshAction {
    /// Run both aggregation queries and report the outcome.
    StartFetch,
    /// Keep the requester blocked: a cycle is already under way.
    Wait,
    /// The cycle is fully applied: let the pending scrape be served.
    ReleaseScrape,
    /// A query failed: stop rather than serve wrong data.
    Terminate,
}

/// The phase after `event` arrives in phase `p`.
pub open spec fn next_phase(p: RefreshPhase, event: RefreshEvent) -> RefreshPhase {
    match (p, event) {
        (RefreshPhase::Idle, RefreshEvent::ScrapeRequested) => RefreshPhase::Refreshing,
        (RefreshPhase::Refreshing, RefreshEvent::ScrapeRequested) => RefreshPhase::Refreshing,
        (_, RefreshEvent::FetchSucceeded(_)) => RefreshPhase::Idle,
        (_, RefreshEvent::FetchFailed) => RefreshPhase::Idle,
    }
}

/// The action requested when `event` arrives in phase `p`.
pub open spec fn next_action(p: RefreshPhase, event: RefreshEvent) -> RefreshAction {
    match (p, event) {
        (RefreshPhase::Idle, RefreshEvent::ScrapeRequested) => RefreshAction::StartFetch,
        (RefreshPhase::Refreshing, RefreshEvent::ScrapeRequested) => RefreshAction::Wait,
        (_, RefreshEvent::FetchSucceeded(_)) => RefreshAction::ReleaseScrape,
        (_, RefreshEvent::FetchFailed) => RefreshAction::Terminate,
    }
}

/// The published invocation-count mapping after `event` arrives in phase
/// `p`: only a completed fetch changes it, by the pure overwrite.
pub open spec fn next_invocations_view(
    p: RefreshPhase,
    event: RefreshEvent,
    m: Map<int, int>,
) -> Map<int, int> {
    match (p, event) {
        (RefreshPhase::Refreshing, RefreshEvent::FetchSucceeded(snap)) => m.union_prefer_right(
            invocation_gauge_map(snap.invocations@),
        ),
        _ => m,
    }
}

/// The published event-count mapping after `event` arrives in phase `p`.
pub open spec fn next_events_view(
    p: RefreshPhase,
    event: RefreshEvent,
    m: Map<int, int>,
) -> Map<int, int> {
    match (p, event) {
        (RefreshPhase::Refreshing, RefreshEvent::FetchSucceeded(snap)) => m.union_prefer_right(
            event_gauge_map(snap.events@),
        ),
        _ => m,
    }
}

/// The refresh loop's whole state: its phase and the gauge state it owns.
pub struct Exporter {
    phase: RefreshPhase,
    gauges: GaugeState,
}

impl Exporter {
    /// The current phase.
    pub closed spec fn spec_phase(self) -> RefreshPhase {
        self.phase
    }

    /// The published invocation-count mapping.
    pub closed spec fn invocations_view(self) -> Map<int, int> {
        self.gauges.invocations_view()
    }

    /// The published event-count mapping.
    pub closed spec fn events_view(self) -> Map<int, int> {
        self.gauges.events_view()
    }

    /// Wraps the gauge state into an idle loop; nothing is published yet
    /// beyond what the gauge state already holds.
    pub fn new(gauges: GaugeState) -> (e: Exporter)
        ensures
            e.spec_phase() is Idle,
            e.invocations_view() == gauges.invocations_view(),
            e.events_view() == gauges.events_view(),
    {
        Exporter { phase: RefreshPhase::Idle, gauges }
    }

    /// Hands the gauge state back, published mappings intact, for a reader
    /// that wants to inspect what the loop has published so far.
    pub fn into_gauges(self) -> (g: GaugeState)
        ensures
            g.invocations_view() == self.invocations_view(),
            g.events_view() == self.events_view(),
    {
        self.gauges
    }

    /// The current phase, for the outside loop's own bookkeeping.
    pub fn phase(&self) -> (p: RefreshPhase)
        ensures
            p == self.spec_phase(),
    {
        self.phase
    }

    /// Advances the machine by one event.  A fetch outcome can only arrive
    /// while a cycle is under way: the loop never starts a fetch it was not
    /// asked for.  The returned action, the next phase and the published
    /// mappings are exactly the transition functions' values; in particular
    /// a scrape request never changes the mappings, and a failed fetch
    /// leaves them untouched.
    pub fn step(&mut self, event: RefreshEvent) -> (a: RefreshAction)
        requires
            !(event is ScrapeRequested) ==> old(self).spec_phase() is Refreshing,
        ensures
            final(self).spec_phase() == next_phase(old(self).spec_phase(), event),
            a == next_action(old(self).spec_phase(), event),
            final(self).invocations_view() == next_invocations_view(
                old(self).spec_phase(),
                event,
                old(self).invocations_view(),
            ),
            final(self).events_view() == next_events_view(
                old(self).spec_phase(),
                event,
                old(self).events_view(),
            ),
    {
        match event {
            RefreshEvent::ScrapeRequested => {
                match self.phase {
                    RefreshPhase::Idle => {
                        self.phase = RefreshPhase::Refreshing;
                        RefreshAction::StartFetch
                    },
                    RefreshPhase::Refreshing => RefreshAction::Wait,
                }
            },
            RefreshEvent::FetchSucceeded(snap) => {
                self.gauges.apply(&snap);
                self.phase = RefreshPhase::Idle;
                RefreshAction::ReleaseScrape
            },
            RefreshEvent::FetchFailed => {
                self.phase = RefreshPhase::Idle;
                RefreshAction::Terminate
            },
        }
    }
}

/// A failed fetch is atomic in its absence: whatever phase it interrupts,
/// the published mappings after the failure are exactly the mappings
/// before it — no partial write of the failing cycle is observable.
pub proof fn lemma_fetch_failure_leaves_gauges(
    p: RefreshPhase,
    m_inv: Map<int, int>,
    m_ev: Map<int, int>,
)
    ensures
        next_invocations_view(p, RefreshEvent::FetchFailed, m_inv) == m_inv,
        next_events_view(p, RefreshEvent::FetchFailed, m_ev) == m_ev,
{
}

/// A scrape arriving while a cycle is under way does not observe anything:
/// the requester is kept waiting, the phase stays refreshing, the mappings
/// do not move; and the only event that ever releases a scrape is the
/// completed fetch of the cycle itself.
pub proof fn lemma_scrape_waits_for_cycle(
    m_inv: Map<int, int>,
    m_ev: Map<int, int>,
)
    ensures
        next_action(RefreshPhase::Refreshing, RefreshEvent::ScrapeRequested) is Wait,
        next_phase(RefreshPhase::Refreshing, RefreshEvent::ScrapeRequested) is Refreshing,
        next_invocations_view(RefreshPhase::Refreshing, RefreshEvent::ScrapeRequested, m_inv)
            == m_inv,
        next_events_view(RefreshPhase::Refreshing, RefreshEvent::ScrapeRequested, m_ev) == m_ev,
        forall|p: RefreshPhase, event: RefreshEvent|
            #[trigger] next_action(p, event) is ReleaseScrape ==> event is FetchSucceeded,
{
}

} // verus!
