//! From the rows that the store returns to a dense series of buckets.

use vstd::prelude::*;
use crate::aggregate::select;
use crate::aggregate::spec_kind_of_name;
use crate::aggregate::spec_select;
use crate::aggregate::spec_text;
use crate::aggregate::AggregateSpec;
use crate::aggregate::FieldExpression;
use crate::decode::decode_cursor;
use crate::decode::spec_decode_cursor;
use crate::error::QueryError;
use crate::predicate::conjoin;
use crate::predicate::spec_conjoin;
use crate::predicate::CompiledPredicate;
use crate::predicate::FilterFragment;
use crate::predicate::ParseFailure;
use crate::time::decode_time_param;
use crate::time::lemma_bucket_starts_ordered;
use crate::time::plan_buckets;
use crate::time::spec_plan_buckets;
use crate::time::spec_time_param;
use crate::time::BucketPlan;

verus! {

/// Number of records on a page of a plain query, which the store returns in
/// ascending order of id.
pub const PAGE_SIZE: i64 = 10;

/// One row of the grouped query: the aggregate over the records of one
/// bucket.
#[derive(Clone, Copy, Debug, PartialEq, Eq, Structural)]
pub struct BucketResult {
    /// The aggregate's value.
    pub value: i64,
    /// The bucket, as the store computed it.
    pub bucket_index: i32,
}

/// One point of the series.
#[derive(Clone, Copy, Debug, PartialEq, Eq, Structural)]
pub struct Bucket {
    /// The aggregate over the bucket's records, 0 where it has none.
    pub value: i64,
    /// The second in which the bucket starts.
    pub bucket: i64,
}

/// The series of an aggregation.
#[derive(Clone, Debug, PartialEq, Eq)]
pub struct Buckets {
    /// One bucket per slice of the plan, in ascending order of time.
    pub buckets: Vec<Bucket>,
}

/// The payload of an aggregation's answer.
#[derive(Clone, Debug, PartialEq, Eq)]
pub struct BucketedData {
    /// The series.
    pub data: Buckets,
}

/// All that the store needs to run an aggregation, and all that is needed to
/// make a series of what it returns.
#[derive(Clone, Debug, PartialEq, Eq)]
pub struct AggregationRequest {
    /// Which records count.
    pub predicate: CompiledPredicate,
    /// What is computed over the records of a bucket.
    pub spec: AggregateSpec,
    /// How the range is cut into buckets.
    pub plan: BucketPlan,
}

/// The value that the rows give to the bucket `index`: that of the last row
/// for this bucket, or 0 where no row is for it.
pub open spec fn spec_bucket_value(rows: Seq<BucketResult>, index: int) -> i64
    decreases rows.len(),
{
    if rows.len() == 0 {
        0
    } else if rows.last().bucket_index == index {
        rows.last().value
    } else {
        spec_bucket_value(rows.drop_last(), index)
    }
}

/// The bucket at place `index` of the series that a plan and rows give.
pub open spec fn spec_bucket_at(plan: BucketPlan, rows: Seq<BucketResult>, index: int) -> Bucket {
    Bucket {
        value: spec_bucket_value(rows, index),
        bucket: plan.spec_bucket_start(index) as i64,
    }
}

/// The series that a plan and rows give: one bucket per slice, each with its
/// start and with the value of its row, or 0. Rows for buckets that the plan
/// does not have are in no bucket.
pub open spec fn spec_series(plan: BucketPlan, rows: Seq<BucketResult>) -> Seq<Bucket> {
    Seq::new(plan.bucket_count as nat, |i: int| spec_bucket_at(plan, rows, i))
}

/// The series with every bucket empty.
fn empty_series(plan: &BucketPlan) -> (r: Vec<Bucket>)
    requires
        plan.wf(),
    ensures
        r@ == spec_series(*plan, Seq::<BucketResult>::empty()),
{
    let mut series: Vec<Bucket> = Vec::new();
    let mut i: i32 = 0;
    while i < plan.bucket_count
        invariant
            plan.wf(),
            0 <= i <= plan.bucket_count,
            series@.len() == i,
            forall|k: int|
                0 <= k < i ==> series@[k] == spec_bucket_at(
                    *plan,
                    Seq::<BucketResult>::empty(),
                    k,
                ),
        decreases plan.bucket_count - i,
    {
        let start = plan.bucket_start(i);
        series.push(Bucket { value: 0, bucket: start });
        i = i + 1;
    }
    assert(series@ =~= spec_series(*plan, Seq::<BucketResult>::empty()));
    series
}

/// Lays the rows of a grouped query over the plan's buckets.
///
/// The series has exactly `bucket_count` buckets in ascending order of time.
/// A bucket without a row has value 0. A row whose index is none of the
/// plan's is dropped.
pub fn pad_results(plan: &BucketPlan, rows: &Vec<BucketResult>) -> (r: Vec<Bucket>)
    requires
        plan.wf(),
    ensures
        r@ == spec_series(*plan, rows@),
        r@.len() == plan.bucket_count,
{
    let mut series = empty_series(plan);
    let mut j: usize = 0;
    while j < rows.len()
        invariant
            plan.wf(),
            0 <= j <= rows@.len(),
            series@ == spec_series(*plan, rows@.take(j as int)),
        decreases rows@.len() - j,
    {
        let row = rows[j];
        proof {
            let before = rows@.take(j as int);
            let after = rows@.take(j + 1);
            assert(after.drop_last() =~= before);
            assert(after.last() == row);
        }
        if 0 <= row.bucket_index && row.bucket_index < plan.bucket_count {
            let start = plan.bucket_start(row.bucket_index);
            series.set(row.bucket_index as usize, Bucket { value: row.value, bucket: start });
        }
        assert(series@ =~= spec_series(*plan, rows@.take(j + 1)));
        j = j + 1;
    }
    assert(rows@.take(j as int) =~= rows@);
    series
}

/// Makes the answer of an aggregation from the rows that the store returned
/// for it.
pub fn aggregate(request: &AggregationRequest, rows: &Vec<BucketResult>) -> (r: BucketedData)
    requires
        request.plan.wf(),
    ensures
        r.data.buckets@ == spec_series(request.plan, rows@),
{
    BucketedData { data: Buckets { buckets: pad_results(&request.plan, rows) } }
}

/// The store could not answer.
#[derive(Clone, Copy, Debug, PartialEq, Eq, Structural)]
pub struct StorageFailure;

/// Ends an aggregation with what the store returned: the dense series of its
/// rows, or `StorageError` where the store failed. There is no answer in
/// between.
pub fn complete(
    request: &AggregationRequest,
    outcome: Result<Vec<BucketResult>, StorageFailure>,
) -> (r: Result<BucketedData, QueryError>)
    requires
        request.plan.wf(),
    ensures
        match outcome {
            Ok(rows) => r is Ok && r->Ok_0.data.buckets@ == spec_series(request.plan, rows@),
            Err(_) => r == Err::<BucketedData, QueryError>(QueryError::StorageError),
        },
{
    match outcome {
        Ok(rows) => Ok(aggregate(request, &rows)),
        Err(_) => Err(QueryError::StorageError),
    }
}

/// What the parameters of an aggregation request give: the request for the
/// store, or the first reason against it. The time range is judged first,
/// then the filter, then the aggregate and its field.
pub open spec fn spec_plan_aggregation(
    aggregation: Option<Seq<char>>,
    cursor: Option<i32>,
    range_start: Option<Option<i64>>,
    range_end: Option<Option<i64>>,
    free_text: Option<Result<FilterFragment, ParseFailure>>,
    bucket_count: i32,
    field_name: Option<Result<FieldExpression, ParseFailure>>,
) -> Result<AggregationRequest, QueryError> {
    match spec_plan_buckets(range_start, range_end, bucket_count) {
        Err(e) => Err(e),
        Ok(plan) => match spec_conjoin(cursor, range_start, range_end, free_text) {
            Err(e) => Err(e),
            Ok(predicate) => match spec_select(aggregation, field_name) {
                Err(e) => Err(e),
                Ok(spec) => Ok(AggregationRequest { predicate, spec, plan }),
            },
        },
    }
}

/// Validates the parameters of an aggregation request, before the store is
/// asked anything.
///
/// `aggregation`, `offset`, `start_datetime` and `end_datetime` are taken as
/// they came in the request. `free_text` and `field_name` are what their
/// parsers made of the decoded filter expression and field name, or `None`
/// where the request had none.
pub fn plan_aggregation(
    aggregation: Option<&str>,
    offset: Option<&str>,
    start_datetime: Option<&str>,
    end_datetime: Option<&str>,
    free_text: Option<Result<FilterFragment, ParseFailure>>,
    bucket_count: i32,
    field_name: Option<Result<FieldExpression, ParseFailure>>,
) -> (r: Result<AggregationRequest, QueryError>)
    ensures
        r == spec_plan_aggregation(
            spec_text(aggregation),
            spec_decode_cursor(offset),
            spec_time_param(start_datetime),
            spec_time_param(end_datetime),
            free_text,
            bucket_count,
            field_name,
        ),
        r matches Ok(request) ==> request.plan.wf() && request.spec.wf(),
{
    let start = decode_time_param(start_datetime);
    let end = decode_time_param(end_datetime);
    let plan = match plan_buckets(start, end, bucket_count) {
        Ok(plan) => plan,
        Err(e) => { return Err(e); },
    };
    let cursor = decode_cursor(offset);
    let predicate = match conjoin(cursor, start, end, free_text) {
        Ok(predicate) => predicate,
        Err(e) => { return Err(e); },
    };
    match select(aggregation, field_name) {
        Ok(spec) => Ok(AggregationRequest { predicate, spec, plan }),
        Err(e) => Err(e),
    }
}

/// A bucket that no row is for has value 0.
pub proof fn lemma_unmatched_bucket_is_zero(rows: Seq<BucketResult>, index: int)
    requires
        forall|k: int| 0 <= k < rows.len() ==> rows[k].bucket_index != index,
    ensures
        spec_bucket_value(rows, index) == 0,
    decreases rows.len(),
{
    if rows.len() > 0 {
        lemma_unmatched_bucket_is_zero(rows.drop_last(), index);
    }
}

/// A bucket that exactly one row is for has that row's value.
pub proof fn lemma_matched_bucket_has_row_value(rows: Seq<BucketResult>, k: int)
    requires
        0 <= k < rows.len(),
        forall|m: int| 0 <= m < rows.len() && m != k ==> rows[m].bucket_index != rows[k].bucket_index,
    ensures
        spec_bucket_value(rows, rows[k].bucket_index as int) == rows[k].value,
    decreases rows.len(),
{
    if k < rows.len() - 1 {
        lemma_matched_bucket_has_row_value(rows.drop_last(), k);
    }
}

/// The series is dense: it has one bucket for each slice of the plan, the
/// bucket at place `i` starts where slice `i` starts, and it holds the value
/// of the rows for `i`.
pub proof fn lemma_series_is_dense(plan: BucketPlan, rows: Seq<BucketResult>, i: int)
    requires
        plan.wf(),
        0 <= i < plan.bucket_count,
    ensures
        spec_series(plan, rows).len() == plan.bucket_count,
        spec_series(plan, rows)[i].bucket == plan.spec_bucket_start(i),
        spec_series(plan, rows)[i].value == spec_bucket_value(rows, i),
{
    lemma_bucket_starts_ordered(plan, i, i);
}

/// With no rows at all, every bucket of the series has value 0.
pub proof fn lemma_no_rows_all_zero(plan: BucketPlan, i: int)
    requires
        plan.wf(),
        0 <= i < plan.bucket_count,
    ensures
        spec_series(plan, Seq::<BucketResult>::empty())[i].value == 0,
{
}

/// Rows for buckets that the plan does not have change nothing: the series
/// is the one that the other rows give.
pub proof fn lemma_stray_row_is_dropped(plan: BucketPlan, rows: Seq<BucketResult>, stray: BucketResult)
    requires
        plan.wf(),
        stray.bucket_index < 0 || stray.bucket_index >= plan.bucket_count,
    ensures
        spec_series(plan, rows.push(stray)) == spec_series(plan, rows),
{
    assert(rows.push(stray).drop_last() =~= rows);
    assert(spec_series(plan, rows.push(stray)) =~= spec_series(plan, rows));
}

/// An aggregation over a range that is empty or inverted is turned down as
/// such, whatever else the request holds.
pub proof fn lemma_inverted_range_always_fails(
    aggregation: Option<Seq<char>>,
    cursor: Option<i32>,
    start: i64,
    end: i64,
    free_text: Option<Result<FilterFragment, ParseFailure>>,
    bucket_count: i32,
    field_name: Option<Result<FieldExpression, ParseFailure>>,
)
    requires
        end <= start,
    ensures
        spec_plan_aggregation(
            aggregation,
            cursor,
            Some(Some(start)),
            Some(Some(end)),
            free_text,
            bucket_count,
            field_name,
        ) == Err::<AggregationRequest, QueryError>(QueryError::InvalidTimeRange),
{
}

/// A request that names no known aggregate, and is sound in its time range,
/// filter and field, is turned down as naming an unknown aggregate.
pub proof fn lemma_unknown_aggregate_fails(
    aggregation: Seq<char>,
    cursor: Option<i32>,
    range_start: Option<Option<i64>>,
    range_end: Option<Option<i64>>,
    free_text: Option<Result<FilterFragment, ParseFailure>>,
    bucket_count: i32,
    field_name: Option<Result<FieldExpression, ParseFailure>>,
)
    requires
        spec_kind_of_name(aggregation) is None,
        spec_plan_buckets(range_start, range_end, bucket_count) is Ok,
        !(free_text matches Some(Err(_))),
        !(field_name matches Some(Err(_))),
    ensures
        spec_plan_aggregation(
            Some(aggregation),
            cursor,
            range_start,
            range_end,
            free_text,
            bucket_count,
            field_name,
        ) == Err::<AggregationRequest, QueryError>(QueryError::UnknownAggregateError),
{
}

} // verus!
