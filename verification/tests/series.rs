use metrix::aggregate::AggregateKind;
use metrix::aggregate::FieldExpression;
use metrix::engine::aggregate;
use metrix::engine::complete;
use metrix::engine::pad_results;
use metrix::engine::plan_aggregation;
use metrix::engine::AggregationRequest;
use metrix::engine::Bucket;
use metrix::engine::BucketResult;
use metrix::engine::StorageFailure;
use metrix::engine::PAGE_SIZE;
use metrix::error::QueryError;
use metrix::predicate::ParseFailure;
use metrix::time::BucketPlan;

const START: &str = "2020-01-01T00:00:00";
const END: &str = "2020-01-01T01:00:00";
const T0: i64 = 1_577_836_800;

fn plan() -> BucketPlan {
    BucketPlan { start_timestamp: T0, end_timestamp: T0 + 3600, bucket_count: 4 }
}

fn count_request() -> AggregationRequest {
    plan_aggregation(Some("count"), None, Some(START), Some(END), None, 4, None).unwrap()
}

#[test]
fn no_rows_gives_all_zero() {
    let series = pad_results(&plan(), &Vec::new());
    assert_eq!(
        series,
        vec![
            Bucket { value: 0, bucket: T0 },
            Bucket { value: 0, bucket: T0 + 900 },
            Bucket { value: 0, bucket: T0 + 1800 },
            Bucket { value: 0, bucket: T0 + 2700 },
        ]
    );
}

#[test]
fn series_has_exactly_bucket_count_buckets() {
    for n in 1..50 {
        let plan = BucketPlan { start_timestamp: 0, end_timestamp: 1000, bucket_count: n };
        let series = pad_results(&plan, &vec![BucketResult { value: 1, bucket_index: 0 }]);
        assert_eq!(series.len(), n as usize);
        for i in 1..series.len() {
            assert!(series[i - 1].bucket < series[i].bucket);
            let step = series[i].bucket - series[i - 1].bucket;
            assert!(step == 1000 / (n as i64) || step == 1000 / (n as i64) + 1);
        }
    }
}

#[test]
fn rows_fill_their_buckets_and_the_rest_is_zero() {
    let rows = vec![
        BucketResult { value: 7, bucket_index: 2 },
        BucketResult { value: 3, bucket_index: 0 },
    ];
    let series = pad_results(&plan(), &rows);
    assert_eq!(
        series,
        vec![
            Bucket { value: 3, bucket: T0 },
            Bucket { value: 0, bucket: T0 + 900 },
            Bucket { value: 7, bucket: T0 + 1800 },
            Bucket { value: 0, bucket: T0 + 2700 },
        ]
    );
}

#[test]
fn rows_outside_the_plan_are_dropped() {
    let rows = vec![
        BucketResult { value: 9, bucket_index: -1 },
        BucketResult { value: 5, bucket_index: 3 },
        BucketResult { value: 9, bucket_index: 4 },
        BucketResult { value: 9, bucket_index: i32::MAX },
        BucketResult { value: 9, bucket_index: i32::MIN },
    ];
    let series = pad_results(&plan(), &rows);
    assert_eq!(series.len(), 4);
    assert_eq!(series[0].value, 0);
    assert_eq!(series[1].value, 0);
    assert_eq!(series[2].value, 0);
    assert_eq!(series[3].value, 5);
}

#[test]
fn later_row_for_a_bucket_wins() {
    let rows = vec![
        BucketResult { value: 1, bucket_index: 1 },
        BucketResult { value: 2, bucket_index: 1 },
    ];
    let series = pad_results(&plan(), &rows);
    assert_eq!(series[1], Bucket { value: 2, bucket: T0 + 900 });
}

#[test]
fn negative_values_are_kept() {
    let rows = vec![BucketResult { value: -4, bucket_index: 0 }];
    let series = pad_results(&plan(), &rows);
    assert_eq!(series[0].value, -4);
}

#[test]
fn count_with_no_matching_records_is_zero_everywhere() {
    let request = count_request();
    assert_eq!(request.spec.kind, AggregateKind::Count);
    let answer = aggregate(&request, &Vec::new());
    assert_eq!(answer.data.buckets.len(), 4);
    assert!(answer.data.buckets.iter().all(|b| b.value == 0));
}

#[test]
fn complete_pads_what_the_store_returned() {
    let request = count_request();
    let answer = complete(&request, Ok(vec![BucketResult { value: 2, bucket_index: 1 }])).unwrap();
    assert_eq!(
        answer.data.buckets,
        vec![
            Bucket { value: 0, bucket: T0 },
            Bucket { value: 2, bucket: T0 + 900 },
            Bucket { value: 0, bucket: T0 + 1800 },
            Bucket { value: 0, bucket: T0 + 2700 },
        ]
    );
}

#[test]
fn store_failure_is_a_storage_error() {
    let request = count_request();
    let answer = complete(&request, Err(StorageFailure));
    assert_eq!(answer, Err(QueryError::StorageError));
}

#[test]
fn aggregation_request_holds_plan_predicate_and_spec() {
    let request = plan_aggregation(
        Some("sum"),
        Some("12"),
        Some(START),
        Some(END),
        None,
        4,
        Some(Ok(FieldExpression { path: String::from("load") })),
    )
    .unwrap();
    assert_eq!(request.plan, plan());
    assert_eq!(request.predicate.cursor, Some(12));
    assert_eq!(request.predicate.range_start, Some(T0));
    assert_eq!(request.predicate.range_end, Some(T0 + 3600));
    assert_eq!(request.predicate.fragment, None);
    assert_eq!(request.spec.kind, AggregateKind::Sum);
    assert_eq!(request.spec.field_expression, Some(FieldExpression { path: String::from("load") }));
}

#[test]
fn unrecognized_aggregate_is_rejected_before_storage() {
    let request = plan_aggregation(Some("foo"), None, Some(START), Some(END), None, 4, None);
    assert_eq!(request, Err(QueryError::UnknownAggregateError));
}

#[test]
fn missing_aggregate_is_rejected() {
    let request = plan_aggregation(None, None, Some(START), Some(END), None, 4, None);
    assert_eq!(request, Err(QueryError::MissingAggregateError));
}

#[test]
fn inverted_range_always_fails_aggregation() {
    assert_eq!(
        plan_aggregation(Some("count"), None, Some(END), Some(START), None, 4, None),
        Err(QueryError::InvalidTimeRange)
    );
    assert_eq!(
        plan_aggregation(Some("foo"), Some("abc"), Some(START), Some(START), Some(Err(ParseFailure)), 0, Some(Err(ParseFailure))),
        Err(QueryError::InvalidTimeRange)
    );
}

#[test]
fn aggregation_needs_real_bounds() {
    assert_eq!(
        plan_aggregation(Some("count"), None, None, Some(END), None, 4, None),
        Err(QueryError::MissingTimeBound)
    );
    assert_eq!(
        plan_aggregation(Some("count"), None, Some("abc"), Some(END), None, 4, None),
        Err(QueryError::MalformedTimestamp)
    );
    assert_eq!(
        plan_aggregation(Some("count"), None, Some(START), Some(END), None, 0, None),
        Err(QueryError::InvalidBucketCount)
    );
}

#[test]
fn aggregation_reports_filter_and_field_errors() {
    assert_eq!(
        plan_aggregation(Some("count"), None, Some(START), Some(END), Some(Err(ParseFailure)), 4, None),
        Err(QueryError::MalformedFilterExpression)
    );
    assert_eq!(
        plan_aggregation(Some("sum"), None, Some(START), Some(END), None, 4, Some(Err(ParseFailure))),
        Err(QueryError::MalformedFieldName)
    );
}

#[test]
fn a_page_has_ten_records() {
    assert_eq!(PAGE_SIZE, 10);
}
