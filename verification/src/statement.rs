//! The statements that a store is sent.
//!
//! A statement is a text with numbered placeholders and the values that go
//! in their places. The text is put together from fixed pieces alone: which
//! pieces depends on which conditions a request has, never on a value that
//! the request carries.

use vstd::prelude::*;
use crate::aggregate::AggregateKind;
use crate::aggregate::AggregateSpec;
use crate::engine::AggregationRequest;
use crate::engine::PAGE_SIZE;
use crate::predicate::CompareOp;
use crate::predicate::CompiledPredicate;
use crate::predicate::FilterFragment;
use crate::predicate::Literal;

verus! {

/// A value that goes in the place of a placeholder.
#[derive(Clone, Debug, PartialEq, Eq)]
pub enum BindValue {
    /// A 32-bit integer.
    Integer(i32),
    /// A 64-bit integer.
    BigInt(i64),
    /// An instant, in seconds since the epoch.
    Instant(i64),
    /// A text.
    Text(String),
    /// A truth value.
    Boolean(bool),
}

/// A statement with its values.
#[derive(Clone, Debug, PartialEq, Eq)]
pub struct Statement {
    /// The text, with `$1`, `$2`, ... where the values go.
    pub text: String,
    /// The values, the first for `$1`.
    pub binds: Vec<BindValue>,
}

/// Calls `String::push_str`, which appends `piece` to the end of `target`.
#[verifier::external_body]
fn append(target: &mut String, piece: &str)
    ensures
        final(target)@ == old(target)@ + piece@,
{
    target.push_str(piece);
}

/// The placeholder with the number `n`.
pub open spec fn spec_placeholder(n: int) -> Seq<char> {
    if n <= 1 {
        "$1"@
    } else if n == 2 {
        "$2"@
    } else if n == 3 {
        "$3"@
    } else if n == 4 {
        "$4"@
    } else if n == 5 {
        "$5"@
    } else if n == 6 {
        "$6"@
    } else if n == 7 {
        "$7"@
    } else if n == 8 {
        "$8"@
    } else {
        "$9"@
    }
}

fn placeholder(n: usize) -> (r: &'static str)
    requires
        1 <= n <= 9,
    ensures
        r@ == spec_placeholder(n as int),
{
    if n <= 1 {
        "$1"
    } else if n == 2 {
        "$2"
    } else if n == 3 {
        "$3"
    } else if n == 4 {
        "$4"
    } else if n == 5 {
        "$5"
    } else if n == 6 {
        "$6"
    } else if n == 7 {
        "$7"
    } else if n == 8 {
        "$8"
    } else {
        "$9"
    }
}

/// The operator of a comparison, as the store writes it.
pub open spec fn spec_operator(op: CompareOp) -> Seq<char> {
    match op {
        CompareOp::Equal => " = "@,
        CompareOp::NotEqual => " <> "@,
        CompareOp::Less => " < "@,
        CompareOp::LessOrEqual => " <= "@,
        CompareOp::Greater => " > "@,
        CompareOp::GreaterOrEqual => " >= "@,
    }
}

fn operator(op: CompareOp) -> (r: &'static str)
    ensures
        r@ == spec_operator(op),
{
    match op {
        CompareOp::Equal => " = ",
        CompareOp::NotEqual => " <> ",
        CompareOp::Less => " < ",
        CompareOp::LessOrEqual => " <= ",
        CompareOp::Greater => " > ",
        CompareOp::GreaterOrEqual => " >= ",
    }
}

/// The type that a field is read as when it is compared with a literal.
pub open spec fn spec_cast(literal: Literal) -> Seq<char> {
    match literal {
        Literal::Integer(_) => "::NUMERIC"@,
        Literal::Text(_) => ""@,
        Literal::Boolean(_) => "::BOOLEAN"@,
    }
}

/// The value that a literal is sent as.
pub open spec fn spec_literal_bind(literal: Literal) -> BindValue {
    match literal {
        Literal::Integer(n) => BindValue::BigInt(n),
        Literal::Text(t) => BindValue::Text(t),
        Literal::Boolean(b) => BindValue::Boolean(b),
    }
}

/// The text of a condition on a column: nothing where the condition is
/// absent, else the fixed piece and the placeholder `n`.
pub open spec fn spec_column_condition(present: bool, piece: Seq<char>, n: int) -> Seq<char> {
    if present {
        piece + spec_placeholder(n)
    } else {
        Seq::<char>::empty()
    }
}

/// The number of the next placeholder after a condition on a column.
pub open spec fn spec_after(present: bool, n: int) -> int {
    if present {
        n + 1
    } else {
        n
    }
}

/// The text of the condition on the data document.
pub open spec fn spec_fragment_condition(fragment: Option<FilterFragment>, n: int) -> Seq<char> {
    match fragment {
        Some(f) => " AND (data #>> string_to_array("@ + spec_placeholder(n) + ", '.'))"@
            + spec_cast(f.literal) + spec_operator(f.op) + spec_placeholder(n + 1),
        None => Seq::<char>::empty(),
    }
}

/// The text of a predicate's conditions, the first placeholder being `first`.
pub open spec fn spec_conditions_text(p: CompiledPredicate, first: int) -> Seq<char> {
    let n1 = spec_after(p.cursor is Some, first);
    let n2 = spec_after(p.range_start is Some, n1);
    let n3 = spec_after(p.range_end is Some, n2);
    " WHERE TRUE"@ + spec_column_condition(p.cursor is Some, " AND id > "@, first)
        + spec_column_condition(p.range_start is Some, " AND created_at >= "@, n1)
        + spec_column_condition(p.range_end is Some, " AND created_at <= "@, n2)
        + spec_fragment_condition(p.fragment, n3)
}

/// The values of the condition on the data document: the field's name, then
/// the literal.
pub open spec fn spec_fragment_binds(fragment: Option<FilterFragment>) -> Seq<BindValue> {
    match fragment {
        Some(f) => seq![BindValue::Text(f.field), spec_literal_bind(f.literal)],
        None => Seq::<BindValue>::empty(),
    }
}

/// The value of a condition on a column, if the condition is there.
pub open spec fn spec_column_bind(value: Option<BindValue>) -> Seq<BindValue> {
    match value {
        Some(v) => seq![v],
        None => Seq::<BindValue>::empty(),
    }
}

/// The value that a cursor is sent as.
pub open spec fn spec_cursor_bind(cursor: Option<i32>) -> Option<BindValue> {
    match cursor {
        Some(c) => Some(BindValue::Integer(c)),
        None => None,
    }
}

/// The value that a time bound is sent as.
pub open spec fn spec_instant_bind(bound: Option<i64>) -> Option<BindValue> {
    match bound {
        Some(t) => Some(BindValue::Instant(t)),
        None => None,
    }
}

/// The values of a predicate's conditions, in the order of their
/// placeholders.
pub open spec fn spec_conditions_binds(p: CompiledPredicate) -> Seq<BindValue> {
    spec_column_bind(spec_cursor_bind(p.cursor)) + spec_column_bind(
        spec_instant_bind(p.range_start),
    ) + spec_column_bind(spec_instant_bind(p.range_end)) + spec_fragment_binds(p.fragment)
}

fn cursor_bind(cursor: Option<i32>) -> (r: Option<BindValue>)
    ensures
        r == spec_cursor_bind(cursor),
{
    match cursor {
        Some(c) => Some(BindValue::Integer(c)),
        None => None,
    }
}

fn instant_bind(bound: Option<i64>) -> (r: Option<BindValue>)
    ensures
        r == spec_instant_bind(bound),
{
    match bound {
        Some(t) => Some(BindValue::Instant(t)),
        None => None,
    }
}

fn literal_bind(literal: &Literal) -> (r: BindValue)
    ensures
        r == spec_literal_bind(*literal),
{
    match literal {
        Literal::Integer(value) => BindValue::BigInt(*value),
        Literal::Text(value) => BindValue::Text(value.clone()),
        Literal::Boolean(value) => BindValue::Boolean(*value),
    }
}

fn cast(literal: &Literal) -> (r: &'static str)
    ensures
        r@ == spec_cast(*literal),
{
    match literal {
        Literal::Integer(_) => "::NUMERIC",
        Literal::Text(_) => "",
        Literal::Boolean(_) => "::BOOLEAN",
    }
}

/// Appends a condition on a column, if there is one, and returns the number
/// of the next free placeholder.
fn append_column_condition(
    text: &mut String,
    binds: &mut Vec<BindValue>,
    value: Option<BindValue>,
    piece: &str,
    n: usize,
) -> (next: usize)
    requires
        1 <= n <= 9,
    ensures
        final(text)@ == old(text)@ + spec_column_condition(value is Some, piece@, n as int),
        final(binds)@ == old(binds)@ + spec_column_bind(value),
        next == spec_after(value is Some, n as int),
{
    match value {
        Some(v) => {
            append(text, piece);
            append(text, placeholder(n));
            binds.push(v);
            assert(text@ =~= old(text)@ + (piece@ + spec_placeholder(n as int)));
            assert(binds@ =~= old(binds)@ + seq![v]);
            n + 1
        },
        None => {
            assert(text@ =~= old(text)@ + Seq::<char>::empty());
            assert(binds@ =~= old(binds)@ + Seq::<BindValue>::empty());
            n
        },
    }
}

/// Appends the condition on the data document, if there is one.
fn append_fragment_condition(
    text: &mut String,
    binds: &mut Vec<BindValue>,
    fragment: &Option<FilterFragment>,
    n: usize,
)
    requires
        1 <= n <= 8,
    ensures
        final(text)@ == old(text)@ + spec_fragment_condition(*fragment, n as int),
        final(binds)@ == old(binds)@ + spec_fragment_binds(*fragment),
{
    match fragment {
        Some(f) => {
            append(text, " AND (data #>> string_to_array(");
            append(text, placeholder(n));
            append(text, ", '.'))");
            append(text, cast(&f.literal));
            append(text, operator(f.op));
            append(text, placeholder(n + 1));
            binds.push(BindValue::Text(f.field.clone()));
            binds.push(literal_bind(&f.literal));
            assert(text@ =~= old(text)@ + spec_fragment_condition(*fragment, n as int));
            assert(binds@ =~= old(binds)@ + spec_fragment_binds(*fragment));
        },
        None => {
            assert(text@ =~= old(text)@ + Seq::<char>::empty());
            assert(binds@ =~= old(binds)@ + Seq::<BindValue>::empty());
        },
    }
}

/// Appends a predicate's conditions to a statement under construction and
/// returns the number of the next free placeholder.
fn append_conditions(
    text: &mut String,
    binds: &mut Vec<BindValue>,
    predicate: &CompiledPredicate,
    first: usize,
) -> (next: usize)
    requires
        1 <= first <= 5,
    ensures
        final(text)@ == old(text)@ + spec_conditions_text(*predicate, first as int),
        final(binds)@ == old(binds)@ + spec_conditions_binds(*predicate),
        next == first + spec_conditions_binds(*predicate).len(),
        next <= first + 5,
{
    let ghost text0 = text@;
    let ghost binds0 = binds@;
    let ghost c0 = " WHERE TRUE"@;
    let ghost c1 = spec_column_condition(predicate.cursor is Some, " AND id > "@, first as int);
    let ghost b1 = spec_column_bind(spec_cursor_bind(predicate.cursor));
    let ghost b2 = spec_column_bind(spec_instant_bind(predicate.range_start));
    let ghost b3 = spec_column_bind(spec_instant_bind(predicate.range_end));
    let ghost b4 = spec_fragment_binds(predicate.fragment);
    append(text, " WHERE TRUE");
    let n1 = append_column_condition(text, binds, cursor_bind(predicate.cursor), " AND id > ", first);
    let ghost c2 = spec_column_condition(
        predicate.range_start is Some,
        " AND created_at >= "@,
        n1 as int,
    );
    let n2 = append_column_condition(
        text,
        binds,
        instant_bind(predicate.range_start),
        " AND created_at >= ",
        n1,
    );
    let ghost c3 = spec_column_condition(
        predicate.range_end is Some,
        " AND created_at <= "@,
        n2 as int,
    );
    let n3 = append_column_condition(
        text,
        binds,
        instant_bind(predicate.range_end),
        " AND created_at <= ",
        n2,
    );
    let ghost c4 = spec_fragment_condition(predicate.fragment, n3 as int);
    append_fragment_condition(text, binds, &predicate.fragment, n3);
    proof {
        assert(text@ == text0 + c0 + c1 + c2 + c3 + c4);
        lemma_concat_is_associative(text0, c0, c1);
        lemma_concat_is_associative(text0, c0 + c1, c2);
        lemma_concat_is_associative(text0, c0 + c1 + c2, c3);
        lemma_concat_is_associative(text0, c0 + c1 + c2 + c3, c4);
        assert(spec_conditions_text(*predicate, first as int) == c0 + c1 + c2 + c3 + c4);
        assert(binds@ == binds0 + b1 + b2 + b3 + b4);
        lemma_concat_is_associative(binds0, b1, b2);
        lemma_concat_is_associative(binds0, b1 + b2, b3);
        lemma_concat_is_associative(binds0, b1 + b2 + b3, b4);
        assert(spec_conditions_binds(*predicate) == b1 + b2 + b3 + b4);
    }
    if predicate.fragment.is_some() {
        n3 + 2
    } else {
        n3
    }
}

/// Joining three sequences gives the same whichever two are joined first.
proof fn lemma_concat_is_associative<T>(a: Seq<T>, b: Seq<T>, c: Seq<T>)
    ensures
        a + b + c == a + (b + c),
{
    assert(a + b + c =~= a + (b + c));
}

/// The text of the statement that loads one page of a plain query.
pub open spec fn spec_page_text(p: CompiledPredicate) -> Seq<char> {
    "SELECT * FROM metrics"@ + spec_conditions_text(p, 1) + " ORDER BY id LIMIT "@
        + spec_placeholder(1 + spec_conditions_binds(p).len() as int)
}

/// The values of the statement that loads one page of a plain query.
pub open spec fn spec_page_binds(p: CompiledPredicate) -> Seq<BindValue> {
    spec_conditions_binds(p) + seq![BindValue::BigInt(PAGE_SIZE)]
}

/// The statement that loads the first records, in ascending order of id,
/// that a predicate holds of.
pub fn page_statement(predicate: &CompiledPredicate) -> (r: Statement)
    ensures
        r.text@ == spec_page_text(*predicate),
        r.binds@ == spec_page_binds(*predicate),
{
    let mut text = String::new();
    let mut binds: Vec<BindValue> = Vec::new();
    append(&mut text, "SELECT * FROM metrics");
    let next = append_conditions(&mut text, &mut binds, predicate, 1);
    append(&mut text, " ORDER BY id LIMIT ");
    append(&mut text, placeholder(next));
    binds.push(BindValue::BigInt(PAGE_SIZE));
    proof {
        let e = Seq::<char>::empty();
        assert(e + "SELECT * FROM metrics"@ =~= "SELECT * FROM metrics"@);
        assert(binds@ =~= spec_page_binds(*predicate));
    }
    Statement { text, binds }
}

/// The name of an aggregate's function in the store.
pub open spec fn spec_function(kind: AggregateKind) -> Seq<char> {
    match kind {
        AggregateKind::Count => "COUNT("@,
        AggregateKind::Sum => "SUM("@,
        AggregateKind::Avg => "AVG("@,
        AggregateKind::Min => "MIN("@,
        AggregateKind::Max => "MAX("@,
    }
}

fn function(kind: AggregateKind) -> (r: &'static str)
    ensures
        r@ == spec_function(kind),
{
    match kind {
        AggregateKind::Count => "COUNT(",
        AggregateKind::Sum => "SUM(",
        AggregateKind::Avg => "AVG(",
        AggregateKind::Min => "MIN(",
        AggregateKind::Max => "MAX(",
    }
}

/// What an aggregate is computed over: every record for a count, else the
/// field behind the first placeholder, read as a number.
pub open spec fn spec_operand(spec: AggregateSpec) -> Seq<char> {
    if spec.field_expression is Some {
        "(data #>> string_to_array($1, '.'))::NUMERIC"@
    } else {
        "*"@
    }
}

/// The value that goes with what an aggregate is computed over.
pub open spec fn spec_operand_binds(spec: AggregateSpec) -> Seq<BindValue> {
    match spec.field_expression {
        Some(field) => seq![BindValue::Text(field.path)],
        None => Seq::<BindValue>::empty(),
    }
}

/// The text that says which bucket a record is in:
/// `floor((created_at - start) * count / (end - start))`, with the start
/// behind placeholder `k`, the count behind the next and the end behind the
/// one after.
pub open spec fn spec_bucket_text(k: int) -> Seq<char> {
    "))::BIGINT AS value, FLOOR(((EXTRACT(EPOCH FROM created_at) - "@ + spec_placeholder(k)
        + ") * "@ + spec_placeholder(k + 1) + ") / ("@ + spec_placeholder(k + 2) + " - "@
        + spec_placeholder(k) + "))::INTEGER AS bucket_index FROM metrics"@
}

/// The text of the statement that computes an aggregate per bucket.
pub open spec fn spec_grouped_text(request: AggregationRequest) -> Seq<char> {
    let k = 1 + spec_operand_binds(request.spec).len() as int;
    "SELECT ("@ + spec_function(request.spec.kind) + spec_operand(request.spec) + spec_bucket_text(k)
        + spec_conditions_text(request.predicate, k + 3) + " GROUP BY bucket_index"@
}

/// The values of the statement that computes an aggregate per bucket.
pub open spec fn spec_grouped_binds(request: AggregationRequest) -> Seq<BindValue> {
    spec_operand_binds(request.spec) + seq![
        BindValue::BigInt(request.plan.start_timestamp),
        BindValue::Integer(request.plan.bucket_count),
        BindValue::BigInt(request.plan.end_timestamp),
    ] + spec_conditions_binds(request.predicate)
}

/// Appends what an aggregate is computed over and returns the number of the
/// next free placeholder.
fn append_operand(text: &mut String, binds: &mut Vec<BindValue>, spec: &AggregateSpec) -> (next: usize)
    requires
        old(binds)@.len() == 0,
    ensures
        final(text)@ == old(text)@ + spec_operand(*spec),
        final(binds)@ == spec_operand_binds(*spec),
        next == 1 + spec_operand_binds(*spec).len(),
{
    match &spec.field_expression {
        Some(field) => {
            append(text, "(data #>> string_to_array($1, '.'))::NUMERIC");
            binds.push(BindValue::Text(field.path.clone()));
            assert(binds@ =~= spec_operand_binds(*spec));
            2
        },
        None => {
            append(text, "*");
            assert(binds@ =~= spec_operand_binds(*spec));
            1
        },
    }
}

/// Appends the text that says which bucket a record is in.
fn append_bucket_text(text: &mut String, k: usize)
    requires
        1 <= k <= 2,
    ensures
        final(text)@ == old(text)@ + spec_bucket_text(k as int),
{
    append(text, "))::BIGINT AS value, FLOOR(((EXTRACT(EPOCH FROM created_at) - ");
    append(text, placeholder(k));
    append(text, ") * ");
    append(text, placeholder(k + 1));
    append(text, ") / (");
    append(text, placeholder(k + 2));
    append(text, " - ");
    append(text, placeholder(k));
    append(text, "))::INTEGER AS bucket_index FROM metrics");
    assert(text@ =~= old(text)@ + spec_bucket_text(k as int));
}

/// The statement that computes a request's aggregate over the records of
/// each bucket and returns one row per bucket that has records.
pub fn grouped_statement(request: &AggregationRequest) -> (r: Statement)
    ensures
        r.text@ == spec_grouped_text(*request),
        r.binds@ == spec_grouped_binds(*request),
{
    let mut text = String::new();
    let mut binds: Vec<BindValue> = Vec::new();
    append(&mut text, "SELECT (");
    append(&mut text, function(request.spec.kind));
    let k = append_operand(&mut text, &mut binds, &request.spec);
    append_bucket_text(&mut text, k);
    binds.push(BindValue::BigInt(request.plan.start_timestamp));
    binds.push(BindValue::Integer(request.plan.bucket_count));
    binds.push(BindValue::BigInt(request.plan.end_timestamp));
    let ghost plan_binds = seq![
        BindValue::BigInt(request.plan.start_timestamp),
        BindValue::Integer(request.plan.bucket_count),
        BindValue::BigInt(request.plan.end_timestamp),
    ];
    assert(binds@ =~= spec_operand_binds(request.spec) + plan_binds);
    let _ = append_conditions(&mut text, &mut binds, &request.predicate, k + 3);
    append(&mut text, " GROUP BY bucket_index");
    proof {
        let e = Seq::<char>::empty();
        assert(e + "SELECT ("@ =~= "SELECT ("@);
    }
    Statement { text, binds }
}

/// Whether two predicates have the same conditions, whatever the values in
/// them: the same columns bounded, and the same operator and type of literal
/// on the data document.
pub open spec fn spec_same_shape(p: CompiledPredicate, q: CompiledPredicate) -> bool {
    &&& p.cursor is Some <==> q.cursor is Some
    &&& p.range_start is Some <==> q.range_start is Some
    &&& p.range_end is Some <==> q.range_end is Some
    &&& match (p.fragment, q.fragment) {
        (Some(f), Some(g)) => f.op == g.op && spec_cast(f.literal) == spec_cast(g.literal),
        (None, None) => true,
        _ => false,
    }
}

/// No value of a request reaches a statement's text: two predicates with the
/// same conditions give the same text, whatever cursor, instants, field name
/// and literal they hold.
pub proof fn lemma_text_is_free_of_values(p: CompiledPredicate, q: CompiledPredicate, first: int)
    requires
        spec_same_shape(p, q),
    ensures
        spec_conditions_text(p, first) == spec_conditions_text(q, first),
        spec_page_text(p) == spec_page_text(q),
{
    lemma_one_value_per_condition(p);
    lemma_one_value_per_condition(q);
}

/// No value of a request reaches the text of an aggregation's statement:
/// two requests with the same aggregate, both with or both without a field,
/// and with the same conditions, give the same text, whatever field name,
/// time range, number of buckets and filter values they hold.
pub proof fn lemma_grouped_text_is_free_of_values(a: AggregationRequest, b: AggregationRequest)
    requires
        a.spec.kind == b.spec.kind,
        a.spec.field_expression is Some <==> b.spec.field_expression is Some,
        spec_same_shape(a.predicate, b.predicate),
    ensures
        spec_grouped_text(a) == spec_grouped_text(b),
        spec_grouped_binds(a).len() == spec_grouped_binds(b).len(),
{
    let k = 1 + spec_operand_binds(a.spec).len() as int;
    lemma_text_is_free_of_values(a.predicate, b.predicate, k + 3);
    lemma_one_value_per_condition(a.predicate);
    lemma_one_value_per_condition(b.predicate);
}

/// A predicate sends one value for each condition on a column and two for
/// the condition on the data document, so that every placeholder of its text
/// has its value.
pub proof fn lemma_one_value_per_condition(p: CompiledPredicate)
    ensures
        spec_conditions_binds(p).len() == p.spec_condition_count() + (if p.fragment is Some {
            1int
        } else {
            0
        }),
        spec_conditions_binds(p).len() == spec_after(
            p.range_end is Some,
            spec_after(p.range_start is Some, spec_after(p.cursor is Some, 0)),
        ) + (if p.fragment is Some {
            2int
        } else {
            0
        }),
{
}

} // verus!
