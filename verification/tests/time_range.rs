use metrix::error::QueryError;
use metrix::time::decode_time_param;
use metrix::time::decode_timestamp;
use metrix::time::is_valid_datetime_str;
use metrix::time::plan_buckets;
use metrix::time::resolve_range;
use metrix::time::BucketPlan;

const NEW_YEAR_2020: i64 = 1_577_836_800;

fn hour_in_four() -> BucketPlan {
    resolve_range(Some("2020-01-01T00:00:00"), Some("2020-01-01T01:00:00"), 4).unwrap()
}

#[test]
fn timestamp_is_seconds_since_epoch() {
    assert_eq!(decode_timestamp("1970-01-01T00:00:00"), Some(0));
    assert_eq!(decode_timestamp("1970-01-01T00:00:01"), Some(1));
    assert_eq!(decode_timestamp("2020-01-01T00:00:00"), Some(NEW_YEAR_2020));
    assert_eq!(decode_timestamp("2020-01-01T01:00:00"), Some(NEW_YEAR_2020 + 3600));
    assert_eq!(decode_timestamp("1969-12-31T23:59:59"), Some(-1));
}

#[test]
fn timestamp_is_url_decoded_first() {
    assert_eq!(decode_timestamp("2020-01-01T00%3A10%3A00"), Some(NEW_YEAR_2020 + 600));
    assert_eq!(decode_timestamp("2020-01-01T00%3a10%3a00"), Some(NEW_YEAR_2020 + 600));
}

#[test]
fn malformed_timestamps_are_no_instants() {
    assert_eq!(decode_timestamp(""), None);
    assert_eq!(decode_timestamp("abc"), None);
    assert_eq!(decode_timestamp("2020-01-01"), None);
    assert_eq!(decode_timestamp("2020-01-01 00:00:00"), None);
    assert_eq!(decode_timestamp("2020-01-01T00:00:00Z"), None);
    assert_eq!(decode_timestamp("2020-01-01T00:00:00+01:00"), None);
    assert_eq!(decode_timestamp("2020-13-01T00:00:00"), None);
    assert_eq!(decode_timestamp("2020-01-01T24:00:00"), None);
    assert_eq!(decode_timestamp("2020-01-01T00:00:00%FF"), None);
}

#[test]
fn valid_datetime_strings() {
    assert!(is_valid_datetime_str("2019-11-11T01:00:00"));
    assert!(is_valid_datetime_str("2019-11-11T01%3A00%3A00"));
    assert!(!is_valid_datetime_str("2019-11-11"));
    assert!(!is_valid_datetime_str("yesterday"));
    assert!(!is_valid_datetime_str("%FF"));
}

#[test]
fn time_param_has_three_states() {
    assert_eq!(decode_time_param(None), None);
    assert_eq!(decode_time_param(Some("abc")), Some(None));
    assert_eq!(decode_time_param(Some("2020-01-01T00:00:00")), Some(Some(NEW_YEAR_2020)));
}

#[test]
fn hour_in_four_buckets_is_900_seconds_wide() {
    let plan = hour_in_four();
    assert_eq!(
        plan,
        BucketPlan {
            start_timestamp: NEW_YEAR_2020,
            end_timestamp: NEW_YEAR_2020 + 3600,
            bucket_count: 4,
        }
    );
    assert_eq!(plan.bucket_width_seconds(), 900);
}

#[test]
fn records_map_to_their_buckets() {
    let plan = hour_in_four();
    let ten_past = decode_timestamp("2020-01-01T00:10:00").unwrap();
    let twenty_past = decode_timestamp("2020-01-01T00:20:00").unwrap();
    assert_eq!(ten_past - plan.start_timestamp, 600);
    assert_eq!(twenty_past - plan.start_timestamp, 1200);
    assert_eq!(plan.bucket_index(ten_past), Some(0));
    assert_eq!(plan.bucket_index(twenty_past), Some(1));
}

#[test]
fn boundary_instant_belongs_to_later_bucket() {
    let plan = hour_in_four();
    assert_eq!(plan.bucket_index(NEW_YEAR_2020), Some(0));
    assert_eq!(plan.bucket_index(NEW_YEAR_2020 + 899), Some(0));
    assert_eq!(plan.bucket_index(NEW_YEAR_2020 + 900), Some(1));
    assert_eq!(plan.bucket_index(NEW_YEAR_2020 + 1800), Some(2));
    assert_eq!(plan.bucket_index(NEW_YEAR_2020 + 2700), Some(3));
    assert_eq!(plan.bucket_index(NEW_YEAR_2020 + 3599), Some(3));
}

#[test]
fn instants_outside_the_range_have_no_bucket() {
    let plan = hour_in_four();
    assert_eq!(plan.bucket_index(NEW_YEAR_2020 - 1), None);
    assert_eq!(plan.bucket_index(NEW_YEAR_2020 - 900), None);
    assert_eq!(plan.bucket_index(NEW_YEAR_2020 + 3600), None);
    assert_eq!(plan.bucket_index(i64::MIN), None);
    assert_eq!(plan.bucket_index(i64::MAX), None);
}

#[test]
fn bucket_starts_are_spaced_by_the_width() {
    let plan = hour_in_four();
    assert_eq!(plan.bucket_start(0), NEW_YEAR_2020);
    assert_eq!(plan.bucket_start(1), NEW_YEAR_2020 + 900);
    assert_eq!(plan.bucket_start(2), NEW_YEAR_2020 + 1800);
    assert_eq!(plan.bucket_start(3), NEW_YEAR_2020 + 2700);
}

#[test]
fn fractional_width_is_not_rounded_before_use() {
    let plan = BucketPlan { start_timestamp: 100, end_timestamp: 110, bucket_count: 3 };
    assert_eq!(plan.bucket_width_seconds(), 3);
    assert_eq!(plan.bucket_start(0), 100);
    assert_eq!(plan.bucket_start(1), 103);
    assert_eq!(plan.bucket_start(2), 106);
    assert_eq!(plan.bucket_index(103), Some(0));
    assert_eq!(plan.bucket_index(104), Some(1));
    assert_eq!(plan.bucket_index(106), Some(1));
    assert_eq!(plan.bucket_index(107), Some(2));
    assert_eq!(plan.bucket_index(109), Some(2));
}

#[test]
fn more_buckets_than_seconds() {
    let plan = BucketPlan { start_timestamp: 0, end_timestamp: 1, bucket_count: 2 };
    assert_eq!(plan.bucket_width_seconds(), 0);
    assert_eq!(plan.bucket_start(0), 0);
    assert_eq!(plan.bucket_start(1), 0);
    assert_eq!(plan.bucket_index(0), Some(0));
}

#[test]
fn widest_range_does_not_overflow() {
    let plan = BucketPlan {
        start_timestamp: i64::MIN,
        end_timestamp: i64::MAX,
        bucket_count: i32::MAX,
    };
    assert_eq!(plan.bucket_start(0), i64::MIN);
    assert_eq!(plan.bucket_index(i64::MIN), Some(0));
    assert_eq!(plan.bucket_index(i64::MAX - 1), Some(i32::MAX - 1));
    assert_eq!(plan.bucket_width_seconds(), u64::MAX / (i32::MAX as u64));
    let whole = BucketPlan { start_timestamp: i64::MIN, end_timestamp: i64::MAX, bucket_count: 1 };
    assert_eq!(whole.bucket_width_seconds(), u64::MAX);
}

#[test]
fn missing_bound_is_reported() {
    assert_eq!(
        resolve_range(None, Some("2020-01-01T01:00:00"), 4),
        Err(QueryError::MissingTimeBound)
    );
    assert_eq!(
        resolve_range(Some("2020-01-01T00:00:00"), None, 4),
        Err(QueryError::MissingTimeBound)
    );
    assert_eq!(resolve_range(None, None, 4), Err(QueryError::MissingTimeBound));
    assert_eq!(resolve_range(None, Some("abc"), 4), Err(QueryError::MissingTimeBound));
}

#[test]
fn malformed_bound_is_reported() {
    assert_eq!(
        resolve_range(Some("abc"), Some("2020-01-01T01:00:00"), 4),
        Err(QueryError::MalformedTimestamp)
    );
    assert_eq!(
        resolve_range(Some("2020-01-01T00:00:00"), Some("2020-01-01"), 4),
        Err(QueryError::MalformedTimestamp)
    );
}

#[test]
fn inverted_or_empty_range_is_reported() {
    assert_eq!(
        resolve_range(Some("2020-01-01T01:00:00"), Some("2020-01-01T00:00:00"), 4),
        Err(QueryError::InvalidTimeRange)
    );
    assert_eq!(
        resolve_range(Some("2020-01-01T00:00:00"), Some("2020-01-01T00:00:00"), 4),
        Err(QueryError::InvalidTimeRange)
    );
    assert_eq!(
        resolve_range(Some("2020-01-01T01:00:00"), Some("2020-01-01T00:00:00"), 0),
        Err(QueryError::InvalidTimeRange)
    );
    assert_eq!(plan_buckets(Some(Some(5)), Some(Some(5)), -3), Err(QueryError::InvalidTimeRange));
}

#[test]
fn bucket_count_must_be_positive() {
    assert_eq!(
        resolve_range(Some("2020-01-01T00:00:00"), Some("2020-01-01T01:00:00"), 0),
        Err(QueryError::InvalidBucketCount)
    );
    assert_eq!(
        resolve_range(Some("2020-01-01T00:00:00"), Some("2020-01-01T01:00:00"), -1),
        Err(QueryError::InvalidBucketCount)
    );
    assert_eq!(plan_buckets(Some(Some(0)), Some(Some(1)), i32::MIN), Err(QueryError::InvalidBucketCount));
    assert!(plan_buckets(Some(Some(0)), Some(Some(1)), 1).is_ok());
}

#[test]
fn single_digit_month_is_read() {
    assert_eq!(decode_timestamp("2014-5-17T12:34:56"), Some(1_400_330_096));
    assert_eq!(decode_timestamp("2019-11-11T01:00:00"), Some(1_573_434_000));
}
