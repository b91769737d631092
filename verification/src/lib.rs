//! A pull-driven metrics exporter core: event-delivery statistics fetched
//! from a relational store are republished as labeled gauge values.
//!
//! The crate verifies the logic between two unverified collaborators: the
//! scrape endpoint that asks for fresh values, and the database client that
//! runs the two aggregation queries.  Row values enter as plain tuples, are
//! shaped into a [`stats::StatsSnapshot`], and are written into the gauge
//! vectors as a pure overwrite; the refresh state machine guarantees that a
//! scrape is only released after a complete cycle.

pub mod labels;

pub mod stats;

pub mod gauges;

pub mod refresh;
