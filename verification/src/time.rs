//! Time bounds and the plan that cuts a range into buckets.

use vstd::prelude::*;
use vstd::arithmetic::div_mod::lemma_div_is_ordered;
use vstd::arithmetic::div_mod::lemma_div_multiples_vanish;
use vstd::arithmetic::div_mod::lemma_div_plus_one;
use vstd::arithmetic::div_mod::lemma_fundamental_div_mod;
use crate::decode::url_decoded;
use crate::decode::decode_text;
use crate::decode::spec_decode_text;
use crate::error::QueryError;

verus! {

/// What `chrono::NaiveDateTime::parse_from_str` with the pattern
/// `%Y-%m-%dT%H:%M:%S` makes of a text: the seconds since 1970-01-01T00:00:00
/// of the instant read as UTC, or `None` where the text does not parse.
pub uninterp spec fn timestamp_of_text(text: Seq<char>) -> Option<i64>;

/// Calls `chrono::NaiveDateTime::parse_from_str` on `text` with the pattern
/// `%Y-%m-%dT%H:%M:%S` and takes the seconds since the epoch of what it
/// returns (`and_utc().timestamp()`). The outcome depends on the text alone;
/// the contract gives it the name `timestamp_of_text`.
#[verifier::external_body]
fn parse_timestamp(text: &str) -> (r: Option<i64>)
    ensures
        r == timestamp_of_text(text@),
{
    match chrono::NaiveDateTime::parse_from_str(text, "%Y-%m-%dT%H:%M:%S") {
        Ok(instant) => Some(instant.and_utc().timestamp()),
        Err(_) => None,
    }
}

/// The instant that a raw time parameter stands for, if it decodes and
/// parses.
pub open spec fn spec_decode_timestamp(raw: Seq<char>) -> Option<i64> {
    match url_decoded(raw) {
        Some(text) => timestamp_of_text(text),
        None => None,
    }
}

/// What is known of a time parameter: `None` where it was not given,
/// `Some(None)` where it was given and is no instant, `Some(Some(t))` where
/// it is the instant `t`.
pub open spec fn spec_time_param(raw: Option<&str>) -> Option<Option<i64>> {
    match raw {
        Some(s) => Some(spec_decode_timestamp(s@)),
        None => None,
    }
}

/// Decodes a raw time parameter and parses it as `YYYY-MM-DDTHH:MM:SS`.
pub fn decode_timestamp(raw: &str) -> (r: Option<i64>)
    ensures
        r == spec_decode_timestamp(raw@),
{
    match decode_text(Some(raw)) {
        Some(text) => parse_timestamp(text.as_str()),
        None => None,
    }
}

/// Whether a raw time parameter decodes and parses as an instant.
pub fn is_valid_datetime_str(raw_string: &str) -> (r: bool)
    ensures
        r == spec_decode_timestamp(raw_string@).is_some(),
{
    decode_timestamp(raw_string).is_some()
}

/// Decodes a time parameter that may be absent.
pub fn decode_time_param(raw: Option<&str>) -> (r: Option<Option<i64>>)
    ensures
        r == spec_time_param(raw),
{
    match raw {
        Some(s) => Some(decode_timestamp(s)),
        None => None,
    }
}

/// A time range cut into `bucket_count` slices of equal width.
///
/// The width of a slice is the rational `(end - start) / bucket_count`
/// seconds; it is never rounded before it is used.
#[derive(Clone, Copy, Debug, PartialEq, Eq, Structural)]
pub struct BucketPlan {
    /// First second of the range.
    pub start_timestamp: i64,
    /// The second at which the range ends.
    pub end_timestamp: i64,
    /// Number of slices.
    pub bucket_count: i32,
}

impl BucketPlan {
    /// A plan is usable when its range is not empty and it has a slice.
    pub open spec fn wf(&self) -> bool {
        self.start_timestamp < self.end_timestamp && self.bucket_count > 0
    }

    /// Length of the range in seconds.
    pub open spec fn span(&self) -> int {
        self.end_timestamp - self.start_timestamp
    }

    /// The second in which slice `i` starts: `start + i * width`, rounded
    /// down to a whole second.
    pub open spec fn spec_bucket_start(&self, i: int) -> int {
        self.start_timestamp + (i * self.span()) / (self.bucket_count as int)
    }

    /// The slice an instant falls into: `floor((at - start) / width)`. An
    /// instant on the border of two slices belongs to the later one.
    pub open spec fn spec_bucket_index(&self, at: int) -> int {
        ((at - self.start_timestamp) * self.bucket_count) / self.span()
    }

    /// The slice an instant falls into, if it is one of the plan's.
    pub open spec fn spec_bucket_slot(&self, at: int) -> Option<i32> {
        let index = self.spec_bucket_index(at);
        if 0 <= index < self.bucket_count {
            Some(index as i32)
        } else {
            None
        }
    }

    /// Whole seconds in the width of a slice.
    pub fn bucket_width_seconds(&self) -> (r: u64)
        requires
            self.wf(),
        ensures
            r == self.span() / (self.bucket_count as int),
    {
        let span: i128 = self.end_timestamp as i128 - self.start_timestamp as i128;
        let count: i128 = self.bucket_count as i128;
        let width: i128 = span / count;
        assert(0 <= width <= span) by (nonlinear_arith)
            requires
                width == (span as int) / (count as int),
                span > 0,
                count > 0,
        ;
        width as u64
    }

    /// The second in which slice `index` starts.
    pub fn bucket_start(&self, index: i32) -> (r: i64)
        requires
            self.wf(),
            0 <= index < self.bucket_count,
        ensures
            r == self.spec_bucket_start(index as int),
            self.start_timestamp <= r < self.end_timestamp,
    {
        let span: i128 = self.end_timestamp as i128 - self.start_timestamp as i128;
        let count: i128 = self.bucket_count as i128;
        let i: i128 = index as i128;
        assert(0 <= i * span && i * span < count * span && count * span <= 0x8000_0000 * span)
            by (nonlinear_arith)
            requires
                0 <= i < count,
                count <= 0x7fff_ffff,
                span > 0,
        ;
        let offset: i128 = (i * span) / count;
        assert(0 <= offset < span) by (nonlinear_arith)
            requires
                offset == (i * span) / (count as int),
                0 <= i * span < count * span,
                count > 0,
        ;
        (self.start_timestamp as i128 + offset) as i64
    }

    /// The slice that the instant `at` falls into, or `None` where it falls
    /// before the first slice or after the last.
    pub fn bucket_index(&self, at: i64) -> (r: Option<i32>)
        requires
            self.wf(),
        ensures
            r == self.spec_bucket_slot(at as int),
    {
        let span: i128 = self.end_timestamp as i128 - self.start_timestamp as i128;
        let count: i128 = self.bucket_count as i128;
        let elapsed: i128 = at as i128 - self.start_timestamp as i128;
        if elapsed < 0 {
            assert((elapsed * count) / (span as int) < 0) by (nonlinear_arith)
                requires
                    elapsed < 0,
                    count > 0,
                    span > 0,
            ;
            return None;
        }
        assert(0 <= elapsed * count && elapsed * count <= 0x1_0000_0000_0000_0000 * 0x8000_0000)
            by (nonlinear_arith)
            requires
                0 <= elapsed <= 0x1_0000_0000_0000_0000,
                0 < count <= 0x8000_0000,
        ;
        let index: i128 = (elapsed * count) / span;
        assert(0 <= index) by (nonlinear_arith)
            requires
                index == (elapsed * count) / (span as int),
                0 <= elapsed * count,
                span > 0,
        ;
        if index < count {
            Some(index as i32)
        } else {
            None
        }
    }
}

/// The plan that two time parameters and a number of buckets give, or the
/// reason why there is none. A bound that is missing is reported first, then
/// one that is no instant, then an empty or inverted range, then a number of
/// buckets that is not positive.
pub open spec fn spec_plan_buckets(
    start: Option<Option<i64>>,
    end: Option<Option<i64>>,
    bucket_count: i32,
) -> Result<BucketPlan, QueryError> {
    match (start, end) {
        (Some(Some(s)), Some(Some(e))) => {
            if e <= s {
                Err(QueryError::InvalidTimeRange)
            } else if bucket_count <= 0 {
                Err(QueryError::InvalidBucketCount)
            } else {
                Ok(BucketPlan { start_timestamp: s, end_timestamp: e, bucket_count })
            }
        },
        (Some(_), Some(_)) => Err(QueryError::MalformedTimestamp),
        _ => Err(QueryError::MissingTimeBound),
    }
}

/// Builds the plan from what is known of the two bounds (see
/// `spec_time_param` for the three states of a bound).
pub fn plan_buckets(
    start: Option<Option<i64>>,
    end: Option<Option<i64>>,
    bucket_count: i32,
) -> (r: Result<BucketPlan, QueryError>)
    ensures
        r == spec_plan_buckets(start, end, bucket_count),
        r is Ok ==> r->Ok_0.wf(),
{
    let s = match start {
        Some(s) => s,
        None => { return Err(QueryError::MissingTimeBound); },
    };
    let e = match end {
        Some(e) => e,
        None => { return Err(QueryError::MissingTimeBound); },
    };
    match (s, e) {
        (Some(start_timestamp), Some(end_timestamp)) => {
            if end_timestamp <= start_timestamp {
                Err(QueryError::InvalidTimeRange)
            } else if bucket_count <= 0 {
                Err(QueryError::InvalidBucketCount)
            } else {
                Ok(BucketPlan { start_timestamp, end_timestamp, bucket_count })
            }
        },
        _ => Err(QueryError::MalformedTimestamp),
    }
}

/// Resolves the raw time parameters of an aggregation request into a plan.
/// Both bounds are required here, and each must be an instant.
pub fn resolve_range(
    start_datetime: Option<&str>,
    end_datetime: Option<&str>,
    bucket_count: i32,
) -> (r: Result<BucketPlan, QueryError>)
    ensures
        r == spec_plan_buckets(
            spec_time_param(start_datetime),
            spec_time_param(end_datetime),
            bucket_count,
        ),
        r is Ok ==> r->Ok_0.wf(),
{
    let start = decode_time_param(start_datetime);
    let end = decode_time_param(end_datetime);
    plan_buckets(start, end, bucket_count)
}

/// The first bucket starts where the range starts.
pub proof fn lemma_first_bucket_starts_at_start(plan: BucketPlan)
    requires
        plan.wf(),
    ensures
        plan.spec_bucket_start(0) == plan.start_timestamp,
{
    assert(0 * plan.span() == 0);
}

/// Bucket starts never go back: a later bucket starts no earlier than an
/// earlier one, and every bucket of the plan starts inside the range.
pub proof fn lemma_bucket_starts_ordered(plan: BucketPlan, i: int, j: int)
    requires
        plan.wf(),
        0 <= i <= j < plan.bucket_count,
    ensures
        plan.start_timestamp <= plan.spec_bucket_start(i) <= plan.spec_bucket_start(j)
            < plan.end_timestamp,
{
    let span = plan.span();
    let n = plan.bucket_count as int;
    assert(0 <= i * span <= j * span && j * span + span <= n * span) by (nonlinear_arith)
        requires
            0 <= i <= j < n,
            span > 0,
    ;
    lemma_div_is_ordered(0, i * span, n);
    lemma_div_is_ordered(i * span, j * span, n);
    lemma_fundamental_div_mod(j * span, n);
    let q = (j * span) / n;
    assert(q < span) by (nonlinear_arith)
        requires
            n * q <= j * span,
            j * span + span <= n * span,
            span > 0,
            n > 0,
    ;
}

/// Dividing `x + span` by `n` gives at least `span / n` more, and at most
/// one more than that, than dividing `x`.
proof fn lemma_step_in_whole_seconds(x: int, span: int, n: int)
    requires
        n > 0,
    ensures
        x / n + span / n <= (x + span) / n <= x / n + span / n + 1,
{
    lemma_fundamental_div_mod(x, n);
    lemma_fundamental_div_mod(span, n);
    lemma_fundamental_div_mod(x + span, n);
    let a = x / n;
    let b = span / n;
    let c = (x + span) / n;
    assert(n * c - n * a - n * b == n * (c - a - b)) by (nonlinear_arith);
    assert(a + b <= c <= a + b + 1) by (nonlinear_arith)
        requires
            n > 0,
            -n < n * (c - a - b) < 2 * n,
    ;
}

/// Where the range is at least as many seconds long as it has buckets, the
/// bucket starts are strictly increasing.
pub proof fn lemma_bucket_starts_strictly_increasing(plan: BucketPlan, i: int, j: int)
    requires
        plan.wf(),
        plan.span() >= plan.bucket_count,
        0 <= i < j,
    ensures
        plan.spec_bucket_start(i) < plan.spec_bucket_start(j),
{
    let span = plan.span();
    let n = plan.bucket_count as int;
    assert((j - i - 1) * span >= 0) by (nonlinear_arith)
        requires
            j - i - 1 >= 0,
            span > 0,
    ;
    assert(i * span + n <= j * span) by (nonlinear_arith)
        requires
            (j - i - 1) * span >= 0,
            span >= n,
    ;
    lemma_div_plus_one(i * span, n);
    lemma_div_is_ordered(n + i * span, j * span, n);
}

/// Two neighbouring buckets start one width apart: the whole seconds of the
/// width, or one second more where the width is no whole number of seconds.
pub proof fn lemma_bucket_spacing(plan: BucketPlan, i: int)
    requires
        plan.wf(),
    ensures
        plan.span() / (plan.bucket_count as int) <= plan.spec_bucket_start(i + 1)
            - plan.spec_bucket_start(i) <= plan.span() / (plan.bucket_count as int) + 1,
        plan.span() % (plan.bucket_count as int) == 0 ==> plan.spec_bucket_start(i + 1)
            - plan.spec_bucket_start(i) == plan.span() / (plan.bucket_count as int),
{
    let span = plan.span();
    let n = plan.bucket_count as int;
    assert((i + 1) * span == i * span + span) by (nonlinear_arith);
    lemma_step_in_whole_seconds(i * span, span, n);
    if span % n == 0 {
        let w = span / n;
        lemma_fundamental_div_mod(span, n);
        assert(i * span == n * (i * w)) by (nonlinear_arith)
            requires
                span == n * w,
        ;
        assert((i + 1) * span == n * ((i + 1) * w)) by (nonlinear_arith)
            requires
                span == n * w,
        ;
        lemma_div_multiples_vanish(i * w, n);
        lemma_div_multiples_vanish((i + 1) * w, n);
        assert((i + 1) * w - i * w == w) by (nonlinear_arith);
    }
}

/// Where the width is a whole number of seconds, bucket `i` starts exactly
/// `i` widths after the start of the range.
pub proof fn lemma_bucket_start_exact(plan: BucketPlan, i: int)
    requires
        plan.wf(),
        plan.span() % (plan.bucket_count as int) == 0,
    ensures
        plan.spec_bucket_start(i) == plan.start_timestamp + i * (plan.span() / (
        plan.bucket_count as int)),
{
    let span = plan.span();
    let n = plan.bucket_count as int;
    let w = span / n;
    lemma_fundamental_div_mod(span, n);
    assert(i * span == n * (i * w)) by (nonlinear_arith)
        requires
            span == n * w,
    ;
    lemma_div_multiples_vanish(i * w, n);
}

/// An instant is in bucket `i` exactly when it lies at least `i` widths and
/// less than `i + 1` widths after the start of the range. So an instant on
/// the border of two buckets is in the later one.
pub proof fn lemma_bucket_index_bounds(plan: BucketPlan, at: int, i: int)
    requires
        plan.wf(),
    ensures
        plan.spec_bucket_index(at) == i <==> i * plan.span() <= (at - plan.start_timestamp)
            * plan.bucket_count < (i + 1) * plan.span(),
{
    let span = plan.span();
    let x = (at - plan.start_timestamp) * plan.bucket_count;
    let q = x / span;
    lemma_fundamental_div_mod(x, span);
    assert(0 <= x % span < span);
    assert(q == i <==> i * span <= x < (i + 1) * span) by (nonlinear_arith)
        requires
            x == span * q + x % span,
            0 <= x % span < span,
    ;
}

/// An instant inside the range is in one of the plan's buckets, and an
/// instant outside it is in none.
pub proof fn lemma_slot_iff_in_range(plan: BucketPlan, at: int)
    requires
        plan.wf(),
    ensures
        plan.spec_bucket_slot(at) is Some <==> plan.start_timestamp <= at < plan.end_timestamp,
        plan.spec_bucket_slot(at) matches Some(i) ==> i == plan.spec_bucket_index(at),
{
    let span = plan.span();
    let n = plan.bucket_count as int;
    let elapsed = at - plan.start_timestamp;
    let q = plan.spec_bucket_index(at);
    lemma_bucket_index_bounds(plan, at, q);
    assert((0 <= q < n) <==> (0 <= elapsed < span)) by (nonlinear_arith)
        requires
            q * span <= elapsed * n < (q + 1) * span,
            span > 0,
            n > 0,
    ;
}

/// A range that is empty or inverted gives no plan, whatever the number of
/// buckets.
pub proof fn lemma_inverted_range_has_no_plan(start: i64, end: i64, bucket_count: i32)
    requires
        end <= start,
    ensures
        spec_plan_buckets(Some(Some(start)), Some(Some(end)), bucket_count) == Err::<
            BucketPlan,
            QueryError,
        >(QueryError::InvalidTimeRange),
{
}

} // verus!
