//! End-to-end checks of the exporter library: label rendering, row-to-model
//! mapping, gauge overwrite semantics and the refresh state machine.

use event_gauge_exporter::gauges::{GaugeSetupError, GaugeState};
use event_gauge_exporter::labels::{delivered_label_string, int_label, status_label_string};
use event_gauge_exporter::refresh::{Exporter, RefreshAction, RefreshEvent, RefreshPhase};
use event_gauge_exporter::stats::snapshot_from_rows;

fn example_snapshot() -> event_gauge_exporter::stats::StatsSnapshot {
    snapshot_from_rows(
        vec![
            ("order_created".to_string(), Some(200), 12),
            ("order_created".to_string(), None, 3),
        ],
        vec![
            ("order_created".to_string(), true, 10),
            ("order_created".to_string(), false, 5),
        ],
    )
}

#[test]
fn int_label_renders_decimal() {
    assert_eq!(int_label(0), "0");
    assert_eq!(int_label(7), "7");
    assert_eq!(int_label(200), "200");
    assert_eq!(int_label(-1), "-1");
    assert_eq!(int_label(i32::MAX), "2147483647");
    assert_eq!(int_label(i32::MIN), "-2147483648");
}

#[test]
fn status_label_uses_sentinel_for_absent() {
    assert_eq!(status_label_string(&Some(200)), "200");
    assert_eq!(status_label_string(&Some(0)), "0");
    assert_eq!(status_label_string(&None), "-1");
    assert_eq!(status_label_string(&Some(-1)), "-1");
}

#[test]
fn delivered_label_is_true_or_false() {
    assert_eq!(delivered_label_string(true), "true");
    assert_eq!(delivered_label_string(false), "false");
}

#[test]
fn mapping_is_positional_and_keeps_absent_status() {
    let snap = snapshot_from_rows(
        vec![
            ("a".to_string(), Some(500), 1),
            ("b".to_string(), None, 2),
            ("a".to_string(), None, 9),
        ],
        vec![("a".to_string(), false, 4)],
    );
    assert_eq!(snap.invocations.len(), 3);
    assert_eq!(snap.invocations[0].event, "a");
    assert_eq!(snap.invocations[0].status, Some(500));
    assert_eq!(snap.invocations[0].count, 1);
    assert_eq!(snap.invocations[1].event, "b");
    assert_eq!(snap.invocations[1].status, None);
    assert_eq!(snap.invocations[1].count, 2);
    assert_eq!(snap.invocations[2].event, "a");
    assert_eq!(snap.invocations[2].status, None);
    assert_eq!(snap.invocations[2].count, 9);
    assert_eq!(snap.events.len(), 1);
    assert_eq!(snap.events[0].event, "a");
    assert!(!snap.events[0].delivered);
    assert_eq!(snap.events[0].count, 4);
}

#[test]
fn end_to_end_example_gauges() {
    let mut gauges = GaugeState::new().expect("gauge setup");
    let snap = example_snapshot();
    gauges.apply(&snap);
    assert_eq!(gauges.invocation_value("order_created", "200"), 12);
    assert_eq!(gauges.invocation_value("order_created", "-1"), 3);
    assert_eq!(gauges.event_value("order_created", "true"), 10);
    assert_eq!(gauges.event_value("order_created", "false"), 5);
}

#[test]
fn absent_status_shares_one_sentinel_series_per_event() {
    let mut gauges = GaugeState::new().expect("gauge setup");
    let snap = snapshot_from_rows(
        vec![
            ("a".to_string(), None, 2),
            ("b".to_string(), None, 6),
            ("a".to_string(), None, 4),
        ],
        vec![],
    );
    gauges.apply(&snap);
    // Every absent status lands on the same "-1" label; the later entry for
    // "a" overwrote the earlier one.
    assert_eq!(gauges.invocation_value("a", "-1"), 4);
    assert_eq!(gauges.invocation_value("b", "-1"), 6);
}

#[test]
fn applying_twice_is_idempotent() {
    let mut gauges = GaugeState::new().expect("gauge setup");
    let snap = example_snapshot();
    gauges.apply(&snap);
    let snap_again = example_snapshot();
    gauges.apply(&snap_again);
    // A second apply sets the same values again rather than accumulating.
    assert_eq!(gauges.invocation_value("order_created", "200"), 12);
    assert_eq!(gauges.invocation_value("order_created", "-1"), 3);
    assert_eq!(gauges.event_value("order_created", "true"), 10);
    assert_eq!(gauges.event_value("order_created", "false"), 5);
}

#[test]
fn stale_series_keep_their_last_value() {
    let mut gauges = GaugeState::new().expect("gauge setup");
    let first = snapshot_from_rows(
        vec![("foo".to_string(), Some(200), 5)],
        vec![("foo".to_string(), true, 5)],
    );
    gauges.apply(&first);
    let second = snapshot_from_rows(
        vec![("bar".to_string(), Some(200), 1)],
        vec![("bar".to_string(), true, 1)],
    );
    gauges.apply(&second);
    // "foo" was absent from the second cycle and is still published as 5.
    assert_eq!(gauges.invocation_value("foo", "200"), 5);
    assert_eq!(gauges.event_value("foo", "true"), 5);
    assert_eq!(gauges.invocation_value("bar", "200"), 1);
}

#[test]
fn refresh_cycle_blocks_until_complete() {
    let gauges = GaugeState::new().expect("gauge setup");
    let mut exporter = Exporter::new(gauges);
    assert_eq!(exporter.phase(), RefreshPhase::Idle);

    let a = exporter.step(RefreshEvent::ScrapeRequested);
    assert_eq!(a, RefreshAction::StartFetch);
    assert_eq!(exporter.phase(), RefreshPhase::Refreshing);

    // A scrape arriving mid-cycle is kept waiting, not released.
    let a = exporter.step(RefreshEvent::ScrapeRequested);
    assert_eq!(a, RefreshAction::Wait);
    assert_eq!(exporter.phase(), RefreshPhase::Refreshing);

    let a = exporter.step(RefreshEvent::FetchSucceeded(example_snapshot()));
    assert_eq!(a, RefreshAction::ReleaseScrape);
    assert_eq!(exporter.phase(), RefreshPhase::Idle);

    let mut gauges = exporter.into_gauges();
    assert_eq!(gauges.invocation_value("order_created", "200"), 12);
}

#[test]
fn failed_fetch_leaves_gauges_unchanged() {
    let gauges = GaugeState::new().expect("gauge setup");
    let mut exporter = Exporter::new(gauges);

    let a = exporter.step(RefreshEvent::ScrapeRequested);
    assert_eq!(a, RefreshAction::StartFetch);
    let a = exporter.step(RefreshEvent::FetchSucceeded(example_snapshot()));
    assert_eq!(a, RefreshAction::ReleaseScrape);

    // The next cycle's fetch fails — say its second query broke — so no
    // snapshot exists and nothing may change.
    let a = exporter.step(RefreshEvent::ScrapeRequested);
    assert_eq!(a, RefreshAction::StartFetch);
    let a = exporter.step(RefreshEvent::FetchFailed);
    assert_eq!(a, RefreshAction::Terminate);

    let mut gauges = exporter.into_gauges();
    assert_eq!(gauges.invocation_value("order_created", "200"), 12);
    assert_eq!(gauges.invocation_value("order_created", "-1"), 3);
    assert_eq!(gauges.event_value("order_created", "true"), 10);
    assert_eq!(gauges.event_value("order_created", "false"), 5);
}

#[test]
fn reading_an_untouched_series_publishes_zero() {
    let mut gauges = GaugeState::new().expect("gauge setup");
    assert_eq!(gauges.invocation_value("nobody", "200"), 0);
    assert_eq!(gauges.event_value("nobody", "true"), 0);
}

#[test]
fn label_tuples_with_equal_concatenation_share_a_series() {
    // The underlying registry files each series under a key computed from
    // the label values' bytes run together, so ("a1", "2") and ("a", "12")
    // address one and the same series.  The library inherits this; its
    // contracts speak of series keys for exactly this reason.
    let mut gauges = GaugeState::new().expect("gauge setup");
    let snap = snapshot_from_rows(vec![("a1".to_string(), Some(2), 5)], vec![]);
    gauges.apply(&snap);
    assert_eq!(gauges.invocation_value("a1", "2"), 5);
    assert_eq!(gauges.invocation_value("a", "12"), 5);
}

#[test]
fn duplicate_registration_is_reported() {
    let first = GaugeState::new_registered();
    assert!(first.is_ok());
    let second = GaugeState::new_registered();
    assert_eq!(second.err(), Some(GaugeSetupError::Register));
}
