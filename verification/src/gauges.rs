//! The gauge registry adapter: two label-keyed gauge vectors and the pure
//! overwrite that publishes a snapshot into them.
//!
//! The vectors themselves live in the metrics crate and are opaque here.
//! That crate files each child series under a key it computes from the two
//! label values alone — a hash of their bytes run together, with nothing in
//! between — and a lookup goes by that key without comparing the labels
//! again.  The key is named here by [`series_key`], and what a vector holds
//! is [`gauge_contents`], a map from series keys to values.  Distinct label
//! tuples are expected to land on distinct keys, but nothing below assumes
//! it: two tuples whose keys coincide (say the values `("a1", "2")` and
//! `("a", "12")`, whose bytes run together equally) share one series, just
//! as the underlying crate behaves.
//!
//! Publishing a snapshot is a set, never an increment: each aggregate
//! overwrites the value at its series key, and series the new snapshot does
//! not touch keep their previous value (stale series are never cleared,
//! deliberately).

use vstd::prelude::*;

use vstd::map_lib::lemma_union_insert_right;

use crate::labels::{delivered_label_string, status_label_string};
use crate::stats::{EventCountByDelivery, InvocationCountByStatus, StatsSnapshot};

verus! {

#[verifier::external_type_specification]
#[verifier::external_body]
pub struct ExPromError(prometheus::Error);

/// A handle on one labeled gauge vector of the metrics registry.  The
/// vector is a concurrent collection of the metrics crate and cannot be
/// declared to the verifier piecewise, so it sits in a hidden field; every
/// handle is built by [`new_gauge_vec`] with exactly two label dimensions.
#[verifier::external_body]
pub struct GaugeVecHandle {
    inner: prometheus::IntGaugeVec,
}

/// The key under which the metrics crate files the child series for a pair
/// of label values: a deterministic hash of the two strings' bytes run
/// together.  Pairs whose keys coincide address one and the same series;
/// no contract below assumes that cannot happen.
pub uninterp spec fn series_key(value0: Seq<char>, value1: Seq<char>) -> int;

/// The contents of a gauge vector: the current value of each child series
/// that has been touched since the vector was created, by series key.
pub uninterp spec fn gauge_contents(g: GaugeVecHandle) -> Map<int, int>;

/// Whether the metrics crate accepts a vector described by this metric
/// name, help text and two label names.  The validation is a pure function
/// of the four strings; its letter (legal characters, reserved prefixes) is
/// the metrics crate's own business and is not restated here.
pub uninterp spec fn gauge_opts_accepted(
    name: Seq<char>,
    help: Seq<char>,
    label0: Seq<char>,
    label1: Seq<char>,
) -> bool;

/// Relies on `IntGaugeVec::new`: a fresh vector, partitioned by the two
/// given label names, has no child series.  Creation validates only the
/// four descriptor strings, deterministically, so it succeeds exactly when
/// the metrics crate accepts them.
#[verifier::external_body]
fn new_gauge_vec(
    name: &str,
    help: &str,
    label0: &str,
    label1: &str,
) -> (r: Result<GaugeVecHandle, prometheus::Error>)
    ensures
        r is Ok <==> gauge_opts_accepted(name@, help@, label0@, label1@),
        r is Ok ==> gauge_contents(r->Ok_0) =~= Map::empty(),
{
    match prometheus::IntGaugeVec::new(prometheus::Opts::new(name, help), &[label0, label1]) {
        Ok(inner) => Ok(GaugeVecHandle { inner }),
        Err(e) => Err(e),
    }
}

/// Relies on `prometheus::register`: adds the vector to the process-wide
/// default registry, from which the exposition endpoint serves values; it
/// fails when an identically named collector is already registered.  The
/// vector's contents are untouched.
#[verifier::external_body]
fn register_gauge_vec(g: &GaugeVecHandle) -> (r: Result<(), prometheus::Error>)
{
    prometheus::register(Box::new(g.inner.clone()))
}

/// Relies on `IntGaugeVec::with_label_values` and `IntGauge::set`: the
/// child series filed under the key of the given label values is created if
/// it is new and its value is overwritten, every other series being left
/// alone.  The lookup goes by the key alone, so label values with the same
/// key hit the same series.
#[verifier::external_body]
fn gauge_set(g: &mut GaugeVecHandle, value0: &str, value1: &str, value: i64)
    ensures
        gauge_contents(*final(g)) =~= gauge_contents(*old(g)).insert(
            series_key(value0@, value1@),
            value as int,
        ),
{
    g.inner.with_label_values(&[value0, value1]).set(value);
}

/// Relies on `IntGaugeVec::with_label_values` and `IntGauge::get`: reads
/// the child series filed under the key of the given label values; a key
/// never touched before gets a series created at zero, as the metrics
/// crate does.
#[verifier::external_body]
fn gauge_read(g: &mut GaugeVecHandle, value0: &str, value1: &str) -> (r: i64)
    ensures
        gauge_contents(*old(g)).dom().contains(series_key(value0@, value1@)) ==> (gauge_contents(
            *final(g),
        ) =~= gauge_contents(*old(g)) && r as int == gauge_contents(*old(g))[
            series_key(value0@, value1@)
        ]),
        !gauge_contents(*old(g)).dom().contains(series_key(value0@, value1@)) ==> (gauge_contents(
            *final(g),
        ) =~= gauge_contents(*old(g)).insert(series_key(value0@, value1@), 0) && r == 0),
{
    g.inner.with_label_values(&[value0, value1]).get()
}

/// The series key under which an invocation aggregate is published.
pub open spec fn invocation_series_key(entry: InvocationCountByStatus) -> int {
    series_key(entry.label_key().0, entry.label_key().1)
}

/// The series key under which an event aggregate is published.
pub open spec fn event_series_key(entry: EventCountByDelivery) -> int {
    series_key(entry.label_key().0, entry.label_key().1)
}

/// The key-to-value map that publishing `s` writes, entry by entry; a
/// later entry with the same series key overwrites an earlier one.
pub open spec fn invocation_gauge_map(s: Seq<InvocationCountByStatus>) -> Map<int, int>
    decreases s.len(),
{
    if s.len() == 0 {
        Map::empty()
    } else {
        invocation_gauge_map(s.drop_last()).insert(
            invocation_series_key(s.last()),
            s.last().count as int,
        )
    }
}

/// The key-to-value map that publishing `s` writes, entry by entry; a
/// later entry with the same series key overwrites an earlier one.
pub open spec fn event_gauge_map(s: Seq<EventCountByDelivery>) -> Map<int, int>
    decreases s.len(),
{
    if s.len() == 0 {
        Map::empty()
    } else {
        event_gauge_map(s.drop_last()).insert(event_series_key(s.last()), s.last().count as int)
    }
}

/// A series key is in the published map of a sequence exactly when some
/// entry of the sequence lands on it.
pub proof fn lemma_invocation_gauge_map_dom(s: Seq<InvocationCountByStatus>)
    ensures
        forall|key: int|
            #[trigger] invocation_gauge_map(s).dom().contains(key) <==> (exists|i: int|
                0 <= i < s.len() && invocation_series_key(#[trigger] s[i]) == key),
    decreases s.len(),
{
    if s.len() > 0 {
        let t = s.drop_last();
        lemma_invocation_gauge_map_dom(t);
        assert forall|key: int|
            #[trigger] invocation_gauge_map(s).dom().contains(key) implies (exists|i: int|
            0 <= i < s.len() && invocation_series_key(#[trigger] s[i]) == key) by {
            if key == invocation_series_key(s.last()) {
                assert(invocation_series_key(s[s.len() - 1]) == key);
            } else {
                assert(invocation_gauge_map(t).dom().contains(key));
                let i = choose|i: int|
                    0 <= i < t.len() && invocation_series_key(#[trigger] t[i]) == key;
                assert(t[i] == s[i]);
                assert(invocation_series_key(s[i]) == key);
            }
        };
        assert forall|key: int|
            (exists|i: int|
                0 <= i < s.len() && invocation_series_key(#[trigger] s[i])
                    == key) implies #[trigger] invocation_gauge_map(s).dom().contains(key) by {
            let i = choose|i: int| 0 <= i < s.len() && invocation_series_key(#[trigger] s[i]) == key;
            if i < s.len() - 1 {
                assert(t[i] == s[i]);
                assert(invocation_series_key(t[i]) == key);
                assert(invocation_gauge_map(t).dom().contains(key));
            } else {
                assert(invocation_series_key(s.last()) == key);
            }
        };
    }
}

/// With pairwise-distinct series keys — the expected shape when no label
/// tuples collide — every entry of the sequence is published, exactly at
/// its own key and exactly with its own count.
pub proof fn lemma_invocation_gauge_map_at(s: Seq<InvocationCountByStatus>, i: int)
    requires
        0 <= i < s.len(),
        forall|j: int, k: int|
            0 <= j < k < s.len() ==> invocation_series_key(#[trigger] s[j])
                != invocation_series_key(#[trigger] s[k]),
    ensures
        invocation_gauge_map(s).dom().contains(invocation_series_key(s[i])),
        invocation_gauge_map(s)[invocation_series_key(s[i])] == s[i].count as int,
    decreases s.len(),
{
    let t = s.drop_last();
    if i == s.len() - 1 {
    } else {
        assert(forall|j: int, k: int|
            0 <= j < k < t.len() ==> invocation_series_key(#[trigger] t[j])
                != invocation_series_key(#[trigger] t[k]));
        lemma_invocation_gauge_map_at(t, i);
        assert(invocation_series_key(s[s.len() - 1]) != invocation_series_key(s[i]));
    }
}

/// As [`lemma_invocation_gauge_map_dom`], for the event-count map.
pub proof fn lemma_event_gauge_map_dom(s: Seq<EventCountByDelivery>)
    ensures
        forall|key: int|
            #[trigger] event_gauge_map(s).dom().contains(key) <==> (exists|i: int|
                0 <= i < s.len() && event_series_key(#[trigger] s[i]) == key),
    decreases s.len(),
{
    if s.len() > 0 {
        let t = s.drop_last();
        lemma_event_gauge_map_dom(t);
        assert forall|key: int|
            #[trigger] event_gauge_map(s).dom().contains(key) implies (exists|i: int|
            0 <= i < s.len() && event_series_key(#[trigger] s[i]) == key) by {
            if key == event_series_key(s.last()) {
                assert(event_series_key(s[s.len() - 1]) == key);
            } else {
                assert(event_gauge_map(t).dom().contains(key));
                let i = choose|i: int| 0 <= i < t.len() && event_series_key(#[trigger] t[i]) == key;
                assert(t[i] == s[i]);
                assert(event_series_key(s[i]) == key);
            }
        };
        assert forall|key: int|
            (exists|i: int|
                0 <= i < s.len() && event_series_key(#[trigger] s[i])
                    == key) implies #[trigger] event_gauge_map(s).dom().contains(key) by {
            let i = choose|i: int| 0 <= i < s.len() && event_series_key(#[trigger] s[i]) == key;
            if i < s.len() - 1 {
                assert(t[i] == s[i]);
                assert(event_series_key(t[i]) == key);
                assert(event_gauge_map(t).dom().contains(key));
            } else {
                assert(event_series_key(s.last()) == key);
            }
        };
    }
}

/// As [`lemma_invocation_gauge_map_at`], for the event-count map.
pub proof fn lemma_event_gauge_map_at(s: Seq<EventCountByDelivery>, i: int)
    requires
        0 <= i < s.len(),
        forall|j: int, k: int|
            0 <= j < k < s.len() ==> event_series_key(#[trigger] s[j]) != event_series_key(
                #[trigger] s[k],
            ),
    ensures
        event_gauge_map(s).dom().contains(event_series_key(s[i])),
        event_gauge_map(s)[event_series_key(s[i])] == s[i].count as int,
    decreases s.len(),
{
    let t = s.drop_last();
    if i == s.len() - 1 {
    } else {
        assert(forall|j: int, k: int|
            0 <= j < k < t.len() ==> event_series_key(#[trigger] t[j]) != event_series_key(
                #[trigger] t[k],
            ));
        lemma_event_gauge_map_at(t, i);
        assert(event_series_key(s[s.len() - 1]) != event_series_key(s[i]));
    }
}

/// Overwriting is idempotent: publishing the same snapshot twice in
/// succession leaves exactly the mappings of publishing it once — gauges
/// are set, never incremented, so no double counting is possible.
pub proof fn lemma_apply_idempotent(snap: StatsSnapshot, m_inv: Map<int, int>, m_ev: Map<int, int>)
    ensures
        m_inv.union_prefer_right(invocation_gauge_map(snap.invocations@)).union_prefer_right(
            invocation_gauge_map(snap.invocations@),
        ) == m_inv.union_prefer_right(invocation_gauge_map(snap.invocations@)),
        m_ev.union_prefer_right(event_gauge_map(snap.events@)).union_prefer_right(
            event_gauge_map(snap.events@),
        ) == m_ev.union_prefer_right(event_gauge_map(snap.events@)),
{
    assert(m_inv.union_prefer_right(invocation_gauge_map(snap.invocations@)).union_prefer_right(
        invocation_gauge_map(snap.invocations@),
    ) =~= m_inv.union_prefer_right(invocation_gauge_map(snap.invocations@)));
    assert(m_ev.union_prefer_right(event_gauge_map(snap.events@)).union_prefer_right(
        event_gauge_map(snap.events@),
    ) =~= m_ev.union_prefer_right(event_gauge_map(snap.events@)));
}

/// Stale series are retained: a series key that an earlier cycle published
/// and that no entry of the new snapshot lands on keeps its previous value
/// — publishing never clears a series, it can only overwrite it.
pub proof fn lemma_stale_series_retained(
    snap: StatsSnapshot,
    m_inv: Map<int, int>,
    m_ev: Map<int, int>,
    inv_key: int,
    ev_key: int,
)
    requires
        m_inv.dom().contains(inv_key),
        !invocation_gauge_map(snap.invocations@).dom().contains(inv_key),
        m_ev.dom().contains(ev_key),
        !event_gauge_map(snap.events@).dom().contains(ev_key),
    ensures
        m_inv.union_prefer_right(invocation_gauge_map(snap.invocations@)).dom().contains(inv_key),
        m_inv.union_prefer_right(invocation_gauge_map(snap.invocations@))[inv_key]
            == m_inv[inv_key],
        m_ev.union_prefer_right(event_gauge_map(snap.events@)).dom().contains(ev_key),
        m_ev.union_prefer_right(event_gauge_map(snap.events@))[ev_key] == m_ev[ev_key],
{
}

/// Whether the metrics crate accepts both of the exporter's vector
/// descriptors — the fixed names, help texts and label names under which
/// the two gauge vectors are created.
pub open spec fn exporter_gauges_accepted() -> bool {
    &&& gauge_opts_accepted("count_invocations"@, "event invocations count"@, "event"@, "status"@)
    &&& gauge_opts_accepted("count_events"@, "event count"@, "event"@, "delivered"@)
}

/// Why setting up the gauge vectors failed.
#[derive(Debug, Clone, Copy, PartialEq, Eq, Structural)]
pub enum GaugeSetupError {
    /// A vector could not be created.
    Create,
    /// A vector could not be added to the default registry.
    Register,
}

/// The process-lifetime gauge state: the two key-to-value mappings that
/// the exposition collaborator serves.  Mutated only through [`GaugeState::apply`],
/// one completed snapshot at a time.
pub struct GaugeState {
    invocations: GaugeVecHandle,
    events: GaugeVecHandle,
}

impl GaugeState {
    /// The published invocation-count mapping, by series key.
    pub closed spec fn invocations_view(self) -> Map<int, int> {
        gauge_contents(self.invocations)
    }

    /// The published event-count mapping, by series key.
    pub closed spec fn events_view(self) -> Map<int, int> {
        gauge_contents(self.events)
    }

    /// Creates the two gauge vectors, `count_invocations` partitioned by
    /// (event, status) and `count_events` partitioned by (event, delivered),
    /// both starting with no series at all.  Creation succeeds exactly when
    /// the metrics crate accepts the two fixed descriptors; the only error
    /// is a creation failure.
    pub fn new() -> (r: Result<GaugeState, GaugeSetupError>)
        ensures
            r is Ok <==> exporter_gauges_accepted(),
            r is Ok ==> (r->Ok_0.invocations_view() =~= Map::empty()
                && r->Ok_0.events_view() =~= Map::empty()),
            r is Err ==> r->Err_0 is Create,
    {
        let invocations = match new_gauge_vec(
            "count_invocations",
            "event invocations count",
            "event",
            "status",
        ) {
            Ok(g) => g,
            Err(_) => {
                return Err(GaugeSetupError::Create);
            },
        };
        let events = match new_gauge_vec("count_events", "event count", "event", "delivered") {
            Ok(g) => g,
            Err(_) => {
                return Err(GaugeSetupError::Create);
            },
        };
        Ok(GaugeState { invocations, events })
    }

    /// As [`GaugeState::new`], and also registers both vectors with the
    /// process-wide default registry so the exposition endpoint serves them.
    /// Registration can be refused by the registry's current state (a
    /// collector of the same name already present), so success is not owed;
    /// the error says which of the two steps failed.
    pub fn new_registered() -> (r: Result<GaugeState, GaugeSetupError>)
        ensures
            r is Ok ==> (r->Ok_0.invocations_view() =~= Map::empty()
                && r->Ok_0.events_view() =~= Map::empty()),
            r is Ok ==> exporter_gauges_accepted(),
            !exporter_gauges_accepted() ==> (r is Err && r->Err_0 is Create),
            (r is Err && exporter_gauges_accepted()) ==> r->Err_0 is Register,
    {
        let state = Self::new()?;
        match register_gauge_vec(&state.invocations) {
            Ok(_) => {},
            Err(_) => {
                return Err(GaugeSetupError::Register);
            },
        }
        match register_gauge_vec(&state.events) {
            Ok(_) => {},
            Err(_) => {
                return Err(GaugeSetupError::Register);
            },
        }
        Ok(state)
    }

    /// Publishes a snapshot: every invocation aggregate overwrites the
    /// `count_invocations` series at its (event, status label) key, every
    /// event aggregate the `count_events` series at its (event, delivered
    /// label) key.  Series no entry lands on keep their value.
    pub fn apply(&mut self, snap: &StatsSnapshot)
        ensures
            final(self).invocations_view() == old(self).invocations_view().union_prefer_right(
                invocation_gauge_map(snap.invocations@),
            ),
            final(self).events_view() == old(self).events_view().union_prefer_right(
                event_gauge_map(snap.events@),
            ),
    {
        let ghost inv0 = gauge_contents(self.invocations);
        let ghost ev0 = gauge_contents(self.events);
        let mut k: usize = 0;
        while k < snap.invocations.len()
            invariant
                k <= snap.invocations@.len(),
                gauge_contents(self.invocations) == inv0.union_prefer_right(
                    invocation_gauge_map(snap.invocations@.take(k as int)),
                ),
                gauge_contents(self.events) == ev0,
            decreases snap.invocations@.len() - k,
        {
            let entry = &snap.invocations[k];
            let status_str = status_label_string(&entry.status);
            let ghost before = invocation_gauge_map(snap.invocations@.take(k as int));
            gauge_set(&mut self.invocations, entry.event.as_str(), status_str.as_str(), entry.count);
            k = k + 1;
            proof {
                let s = snap.invocations@;
                assert(s.take(k as int).drop_last() =~= s.take(k as int - 1));
                assert(s.take(k as int).last() == s[k as int - 1]);
                lemma_union_insert_right(
                    inv0,
                    before,
                    invocation_series_key(s[k as int - 1]),
                    s[k as int - 1].count as int,
                );
            }
        }
        proof {
            assert(snap.invocations@.take(snap.invocations@.len() as int) =~= snap.invocations@);
        }
        let mut k: usize = 0;
        while k < snap.events.len()
            invariant
                k <= snap.events@.len(),
                gauge_contents(self.events) == ev0.union_prefer_right(
                    event_gauge_map(snap.events@.take(k as int)),
                ),
                gauge_contents(self.invocations) == inv0.union_prefer_right(
                    invocation_gauge_map(snap.invocations@),
                ),
            decreases snap.events@.len() - k,
        {
            let entry = &snap.events[k];
            let delivered_str = delivered_label_string(entry.delivered);
            let ghost before = event_gauge_map(snap.events@.take(k as int));
            gauge_set(&mut self.events, entry.event.as_str(), delivered_str.as_str(), entry.count);
            k = k + 1;
            proof {
                let s = snap.events@;
                assert(s.take(k as int).drop_last() =~= s.take(k as int - 1));
                assert(s.take(k as int).last() == s[k as int - 1]);
                lemma_union_insert_right(
                    ev0,
                    before,
                    event_series_key(s[k as int - 1]),
                    s[k as int - 1].count as int,
                );
            }
        }
        proof {
            assert(snap.events@.take(snap.events@.len() as int) =~= snap.events@);
        }
    }

    /// Reads the published invocation count at the series key of (event,
    /// status label).  A key never written gets a series created at zero,
    /// as the underlying registry does on any lookup.
    pub fn invocation_value(&mut self, event: &str, status: &str) -> (r: i64)
        ensures
            old(self).invocations_view().dom().contains(series_key(event@, status@)) ==> (
            final(self).invocations_view() =~= old(self).invocations_view() && r as int == old(
                self,
            ).invocations_view()[series_key(event@, status@)]),
            !old(self).invocations_view().dom().contains(series_key(event@, status@)) ==> (
            final(self).invocations_view() =~= old(self).invocations_view().insert(
                series_key(event@, status@),
                0,
            ) && r == 0),
            final(self).events_view() == old(self).events_view(),
    {
        gauge_read(&mut self.invocations, event, status)
    }

    /// Reads the published event count at the series key of (event,
    /// delivered label), a never written key again starting at zero.
    pub fn event_value(&mut self, event: &str, delivered: &str) -> (r: i64)
        ensures
            old(self).events_view().dom().contains(series_key(event@, delivered@)) ==> (
            final(self).events_view() =~= old(self).events_view() && r as int == old(
                self,
            ).events_view()[series_key(event@, delivered@)]),
            !old(self).events_view().dom().contains(series_key(event@, delivered@)) ==> (
            final(self).events_view() =~= old(self).events_view().insert(
                series_key(event@, delivered@),
                0,
            ) && r == 0),
            final(self).invocations_view() == old(self).invocations_view(),
    {
        gauge_read(&mut self.events, event, delivered)
    }
}

} // verus!
