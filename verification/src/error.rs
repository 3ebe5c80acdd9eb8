//! The errors a request can end in.

use vstd::prelude::*;

verus! {

/// Why a request was turned down.
///
/// Every variant but `StorageError` is found before the store is asked
/// anything and is the client's fault; `StorageError` is the store's.
#[derive(Clone, Copy, Debug, PartialEq, Eq, Structural)]
pub enum QueryError {
    /// A time bound that aggregation needs was not given.
    MissingTimeBound,
    /// A time bound is not of the form `YYYY-MM-DDTHH:MM:SS`.
    MalformedTimestamp,
    /// The number of buckets is zero or negative.
    InvalidBucketCount,
    /// The end of the range is not after its start.
    InvalidTimeRange,
    /// The free-form filter expression was rejected by its parser.
    MalformedFilterExpression,
    /// The aggregate's name is none of `count`, `sum`, `avg`, `min`, `max`.
    UnknownAggregateError,
    /// No aggregate was named.
    MissingAggregateError,
    /// The field to aggregate over was rejected by its parser, or is absent
    /// where the aggregate needs one.
    MalformedFieldName,
    /// The store failed.
    StorageError,
    /// A record offered for storing is not acceptable.
    ValidationError,
}

impl QueryError {
    /// Whether the client caused the error (as opposed to the store).
    pub open spec fn spec_is_client_error(self) -> bool {
        self != QueryError::StorageError
    }

    /// Whether the client caused the error (as opposed to the store).
    pub fn is_client_error(&self) -> (r: bool)
        ensures
            r == self.spec_is_client_error(),
    {
        match self {
            QueryError::StorageError => false,
            _ => true,
        }
    }

    /// The status code that an HTTP front end answers with: 400 for what the
    /// client caused, 500 for a failure of the store.
    pub fn status_code(&self) -> (r: u16)
        ensures
            r == if self.spec_is_client_error() { 400u16 } else { 500u16 },
    {
        if self.is_client_error() {
            400
        } else {
            500
        }
    }

    /// A sentence for the person who sent the request.
    pub fn message(&self) -> (r: &'static str)
        ensures
            r@ == match *self {
                QueryError::MissingTimeBound => "Start and end datetime are required"@,
                QueryError::MalformedTimestamp => "Malformatted datetime"@,
                QueryError::InvalidBucketCount => "Bucket count must be positive"@,
                QueryError::InvalidTimeRange => "End datetime must be after start datetime"@,
                QueryError::MalformedFilterExpression => "Malformatted query"@,
                QueryError::UnknownAggregateError => "Unknown aggregate type"@,
                QueryError::MissingAggregateError => "No aggregate type provided"@,
                QueryError::MalformedFieldName => "Malformatted metric name"@,
                QueryError::StorageError => "Error loading metrics"@,
                QueryError::ValidationError => "Error saving new metric"@,
            },
    {
        match self {
            QueryError::MissingTimeBound => "Start and end datetime are required",
            QueryError::MalformedTimestamp => "Malformatted datetime",
            QueryError::InvalidBucketCount => "Bucket count must be positive",
            QueryError::InvalidTimeRange => "End datetime must be after start datetime",
            QueryError::MalformedFilterExpression => "Malformatted query",
            QueryError::UnknownAggregateError => "Unknown aggregate type",
            QueryError::MissingAggregateError => "No aggregate type provided",
            QueryError::MalformedFieldName => "Malformatted metric name",
            QueryError::StorageError => "Error loading metrics",
            QueryError::ValidationError => "Error saving new metric",
        }
    }
}

} // verus!
