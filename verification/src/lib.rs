//! Query compilation and time-bucketed aggregation for a store of
//! time-stamped metric records.
//!
//! A request arrives as a handful of optional, loosely typed parameters. The
//! modules here turn them into a conjunctive predicate over stored records
//! and into a dense series of buckets, one per slice of the requested time
//! range. Nothing in this crate reads or writes a store: callers run the
//! query and hand the grouped rows back.

pub mod aggregate;
pub mod decode;
pub mod engine;
pub mod error;
pub mod ingest;
pub mod params;
pub mod predicate;
pub mod routes;
pub mod statement;
pub mod time;
