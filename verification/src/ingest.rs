//! Accepting a new record before it goes to the store.

use vstd::prelude::*;
use crate::error::QueryError;

verus! {

/// Whether `serde_json::from_str::<serde_json::Value>` accepts a text, that
/// is, whether the text is one JSON value.
pub uninterp spec fn json_well_formed(text: Seq<char>) -> bool;

/// Calls `serde_json::from_str::<serde_json::Value>` on `text` and tells
/// whether it returned a value. The outcome depends on the text alone; the
/// contract gives it the name `json_well_formed`.
#[verifier::external_body]
fn parses_as_json(text: &str) -> (r: bool)
    ensures
        r == json_well_formed(text@),
{
    serde_json::from_str::<serde_json::Value>(text).is_ok()
}

/// A record as the store holds it.
#[derive(Clone, Debug, PartialEq, Eq)]
pub struct Metric {
    /// Assigned by the store, unique and increasing.
    pub id: i32,
    /// What is measured.
    pub metric_name: String,
    /// The data document, as JSON text.
    pub data: String,
    /// When the store took the record, in seconds since the epoch.
    pub created_at: i64,
    /// When the store last wrote the record, in seconds since the epoch.
    pub updated_at: i64,
}

/// A record on its way to the store, which assigns the id and the times.
#[derive(Clone, Debug, PartialEq, Eq)]
pub struct NewMetric {
    /// What is measured.
    pub metric_name: String,
    /// The data document, as JSON text.
    pub data: String,
}

/// A record is acceptable when it has a name and its data is JSON.
pub open spec fn spec_acceptable(name: Seq<char>, data_is_json: bool) -> bool {
    name.len() > 0 && data_is_json
}

/// Judges a record, given whether its data parsed.
pub fn validate(name: String, data: String, data_is_json: bool) -> (r: Result<NewMetric, QueryError>)
    ensures
        spec_acceptable(name@, data_is_json) ==> r == Ok::<NewMetric, QueryError>(
            NewMetric { metric_name: name, data },
        ),
        !spec_acceptable(name@, data_is_json) ==> r == Err::<NewMetric, QueryError>(
            QueryError::ValidationError,
        ),
{
    if name.as_str().is_empty() || !data_is_json {
        Err(QueryError::ValidationError)
    } else {
        Ok(NewMetric { metric_name: name, data })
    }
}

/// Accepts a record for storing, or turns it down with `ValidationError`
/// where its name is empty or its data is no JSON.
pub fn ingest(name: String, data: String) -> (r: Result<NewMetric, QueryError>)
    ensures
        spec_acceptable(name@, json_well_formed(data@)) ==> r == Ok::<NewMetric, QueryError>(
            NewMetric { metric_name: name, data },
        ),
        !spec_acceptable(name@, json_well_formed(data@)) ==> r == Err::<NewMetric, QueryError>(
            QueryError::ValidationError,
        ),
{
    let data_is_json = parses_as_json(data.as_str());
    validate(name, data, data_is_json)
}

/// A record without a name is never accepted.
pub proof fn lemma_nameless_is_rejected(data_is_json: bool)
    ensures
        !spec_acceptable(Seq::<char>::empty(), data_is_json),
{
}

} // verus!
