//! What each route decides before the store is asked: the statement to send,
//! or the error to answer with.

use vstd::prelude::*;
use crate::aggregate::spec_text;
use crate::aggregate::FieldExpression;
use crate::decode::spec_decode_cursor;
use crate::engine::plan_aggregation;
use crate::engine::spec_plan_aggregation;
use crate::engine::AggregationRequest;
use crate::error::QueryError;
use crate::ingest::ingest;
use crate::ingest::json_well_formed;
use crate::ingest::spec_acceptable;
use crate::ingest::NewMetric;
use crate::predicate::compile;
use crate::predicate::spec_conjoin;
use crate::predicate::FilterFragment;
use crate::predicate::ParseFailure;
use crate::statement::grouped_statement;
use crate::statement::page_statement;
use crate::statement::spec_grouped_binds;
use crate::statement::spec_grouped_text;
use crate::statement::spec_page_binds;
use crate::statement::spec_page_text;
use crate::statement::Statement;
use crate::time::spec_time_param;

verus! {

/// An aggregation that is ready for the store: the statement to send, and
/// the request that the rows are laid out by when they come back.
#[derive(Clone, Debug, PartialEq, Eq)]
pub struct PlannedAggregation {
    /// The validated request.
    pub request: AggregationRequest,
    /// The statement that computes the request's rows.
    pub statement: Statement,
}

/// The record to store for a new metric, or `ValidationError` where its name
/// is empty or its data is no JSON.
pub fn create_metric_route(metric_name: String, data: String) -> (r: Result<NewMetric, QueryError>)
    ensures
        spec_acceptable(metric_name@, json_well_formed(data@)) ==> r == Ok::<
            NewMetric,
            QueryError,
        >(NewMetric { metric_name, data }),
        !spec_acceptable(metric_name@, json_well_formed(data@)) ==> r == Err::<
            NewMetric,
            QueryError,
        >(QueryError::ValidationError),
{
    ingest(metric_name, data)
}

/// The statement of a plain query: one page of the records that the compiled
/// filter holds of. Only a filter expression that its parser rejected is an
/// error.
pub fn query_metric_route(
    offset: Option<&str>,
    start_datetime: Option<&str>,
    end_datetime: Option<&str>,
    q: Option<Result<FilterFragment, ParseFailure>>,
) -> (r: Result<Statement, QueryError>)
    ensures
        match spec_conjoin(
            spec_decode_cursor(offset),
            spec_time_param(start_datetime),
            spec_time_param(end_datetime),
            q,
        ) {
            Ok(predicate) => r is Ok && r->Ok_0.text@ == spec_page_text(predicate)
                && r->Ok_0.binds@ == spec_page_binds(predicate),
            Err(e) => r == Err::<Statement, QueryError>(e),
        },
{
    match compile(offset, start_datetime, end_datetime, q) {
        Ok(predicate) => Ok(page_statement(&predicate)),
        Err(e) => Err(e),
    }
}

/// The validated request of an aggregation and the statement that computes
/// its rows, or the first reason against the request.
pub fn aggregate_metrics_route(
    aggregation: Option<&str>,
    offset: Option<&str>,
    start_datetime: Option<&str>,
    end_datetime: Option<&str>,
    q: Option<Result<FilterFragment, ParseFailure>>,
    bucket_count: i32,
    metric_name: Option<Result<FieldExpression, ParseFailure>>,
) -> (r: Result<PlannedAggregation, QueryError>)
    ensures
        match spec_plan_aggregation(
            spec_text(aggregation),
            spec_decode_cursor(offset),
            spec_time_param(start_datetime),
            spec_time_param(end_datetime),
            q,
            bucket_count,
            metric_name,
        ) {
            Ok(request) => r is Ok && r->Ok_0.request == request && request.plan.wf()
                && request.spec.wf() && r->Ok_0.statement.text@ == spec_grouped_text(request)
                && r->Ok_0.statement.binds@ == spec_grouped_binds(request),
            Err(e) => r == Err::<PlannedAggregation, QueryError>(e),
        },
{
    match plan_aggregation(
        aggregation,
        offset,
        start_datetime,
        end_datetime,
        q,
        bucket_count,
        metric_name,
    ) {
        Ok(request) => {
            let statement = grouped_statement(&request);
            Ok(PlannedAggregation { request, statement })
        },
        Err(e) => Err(e),
    }
}

} // verus!
