//! The predicate that a query puts to the store.
//!
//! A predicate is a conjunction of typed conditions. No part of it is ever
//! text to be spliced into a query: the bounds are numbers, and the one
//! condition that comes from free text arrives here already parsed into a
//! field, an operator and a typed literal.

use vstd::prelude::*;
use crate::decode::decode_cursor;
use crate::decode::spec_decode_cursor;
use crate::error::QueryError;
use crate::time::decode_time_param;
use crate::time::spec_time_param;

verus! {

/// How a field is compared with a literal.
#[derive(Clone, Copy, Debug, PartialEq, Eq, Structural)]
pub enum CompareOp {
    Equal,
    NotEqual,
    Less,
    LessOrEqual,
    Greater,
    GreaterOrEqual,
}

/// A literal with its type.
#[derive(Clone, Debug, PartialEq, Eq)]
pub enum Literal {
    Integer(i64),
    Text(String),
    Boolean(bool),
}

/// One condition on a field of a record's data document, as the parser of
/// filter expressions hands it over.
#[derive(Clone, Debug, PartialEq, Eq)]
pub struct FilterFragment {
    /// The field's name inside the data document.
    pub field: String,
    /// The comparison.
    pub op: CompareOp,
    /// What the field is compared with.
    pub literal: Literal,
}

/// The outcome of parsing a filter expression that failed.
#[derive(Clone, Copy, Debug, PartialEq, Eq, Structural)]
pub struct ParseFailure;

/// A conjunction of up to four conditions on a record. A condition that is
/// `None` is absent; with all four absent the predicate holds of every
/// record.
#[derive(Clone, Debug, PartialEq, Eq)]
pub struct CompiledPredicate {
    /// `id > cursor`.
    pub cursor: Option<i32>,
    /// `created_at >= range_start`.
    pub range_start: Option<i64>,
    /// `created_at <= range_end`.
    pub range_end: Option<i64>,
    /// The condition on the data document.
    pub fragment: Option<FilterFragment>,
}

impl CompiledPredicate {
    /// Whether the predicate holds of a record with the given id and time of
    /// creation. `fragment_holds` is the store's verdict on the condition on
    /// the data document; it counts only where the predicate has one.
    pub open spec fn spec_accepts(&self, id: int, created_at: int, fragment_holds: bool) -> bool {
        &&& (self.cursor matches Some(c) ==> id > c)
        &&& (self.range_start matches Some(s) ==> created_at >= s)
        &&& (self.range_end matches Some(e) ==> created_at <= e)
        &&& (self.fragment is Some ==> fragment_holds)
    }

    /// Whether the predicate has no condition at all.
    pub open spec fn spec_is_match_all(&self) -> bool {
        self.cursor is None && self.range_start is None && self.range_end is None
            && self.fragment is None
    }

    /// Number of conditions in the conjunction.
    pub open spec fn spec_condition_count(&self) -> int {
        (if self.cursor is Some { 1int } else { 0 })
            + (if self.range_start is Some { 1int } else { 0 })
            + (if self.range_end is Some { 1int } else { 0 })
            + (if self.fragment is Some { 1int } else { 0 })
    }

    /// The predicate without conditions.
    pub fn match_all() -> (r: CompiledPredicate)
        ensures
            r.spec_is_match_all(),
            r == (CompiledPredicate { cursor: None, range_start: None, range_end: None, fragment: None }),
    {
        CompiledPredicate { cursor: None, range_start: None, range_end: None, fragment: None }
    }

    /// Whether the predicate has no condition at all.
    pub fn is_match_all(&self) -> (r: bool)
        ensures
            r == self.spec_is_match_all(),
    {
        self.cursor.is_none() && self.range_start.is_none() && self.range_end.is_none()
            && self.fragment.is_none()
    }

    /// Number of conditions in the conjunction.
    pub fn condition_count(&self) -> (r: usize)
        ensures
            r == self.spec_condition_count(),
    {
        let mut n: usize = 0;
        if self.cursor.is_some() {
            n = n + 1;
        }
        if self.range_start.is_some() {
            n = n + 1;
        }
        if self.range_end.is_some() {
            n = n + 1;
        }
        if self.fragment.is_some() {
            n = n + 1;
        }
        n
    }

    /// Evaluates the predicate on a record's id and time of creation, given
    /// the store's verdict on the condition on the data document.
    pub fn accepts(&self, id: i32, created_at: i64, fragment_holds: bool) -> (r: bool)
        ensures
            r == self.spec_accepts(id as int, created_at as int, fragment_holds),
    {
        let after_cursor = match self.cursor {
            Some(c) => id > c,
            None => true,
        };
        let after_start = match self.range_start {
            Some(s) => created_at >= s,
            None => true,
        };
        let before_end = match self.range_end {
            Some(e) => created_at <= e,
            None => true,
        };
        let fragment_ok = match &self.fragment {
            Some(_) => fragment_holds,
            None => true,
        };
        after_cursor && after_start && before_end && fragment_ok
    }
}

/// A time bound as a plain query takes it: one that was not given, or is no
/// instant, puts no condition.
pub open spec fn spec_lenient_bound(bound: Option<Option<i64>>) -> Option<i64> {
    match bound {
        Some(Some(t)) => Some(t),
        _ => None,
    }
}

/// The predicate that the parts of a filter give. A filter expression that
/// its parser rejected fails the whole; everything else that is absent or
/// unusable is left out.
pub open spec fn spec_conjoin(
    cursor: Option<i32>,
    range_start: Option<Option<i64>>,
    range_end: Option<Option<i64>>,
    free_text: Option<Result<FilterFragment, ParseFailure>>,
) -> Result<CompiledPredicate, QueryError> {
    match free_text {
        Some(Err(_)) => Err(QueryError::MalformedFilterExpression),
        Some(Ok(fragment)) => Ok(
            CompiledPredicate {
                cursor,
                range_start: spec_lenient_bound(range_start),
                range_end: spec_lenient_bound(range_end),
                fragment: Some(fragment),
            },
        ),
        None => Ok(
            CompiledPredicate {
                cursor,
                range_start: spec_lenient_bound(range_start),
                range_end: spec_lenient_bound(range_end),
                fragment: None,
            },
        ),
    }
}

/// Conjoins the decoded parts of a filter into one predicate.
pub fn conjoin(
    cursor: Option<i32>,
    range_start: Option<Option<i64>>,
    range_end: Option<Option<i64>>,
    free_text: Option<Result<FilterFragment, ParseFailure>>,
) -> (r: Result<CompiledPredicate, QueryError>)
    ensures
        r == spec_conjoin(cursor, range_start, range_end, free_text),
{
    let mut predicate = CompiledPredicate::match_all();
    predicate.cursor = cursor;
    if let Some(Some(start)) = range_start {
        predicate.range_start = Some(start);
    }
    if let Some(Some(end)) = range_end {
        predicate.range_end = Some(end);
    }
    match free_text {
        Some(Ok(fragment)) => {
            predicate.fragment = Some(fragment);
            Ok(predicate)
        },
        Some(Err(_)) => Err(QueryError::MalformedFilterExpression),
        None => Ok(predicate),
    }
}

/// Compiles the raw parameters of a query into a predicate.
///
/// `cursor`, `range_start` and `range_end` are taken as they came in the
/// request. `free_text` is what the parser of filter expressions made of the
/// decoded expression, or `None` where the request had none.
pub fn compile(
    cursor: Option<&str>,
    range_start: Option<&str>,
    range_end: Option<&str>,
    free_text: Option<Result<FilterFragment, ParseFailure>>,
) -> (r: Result<CompiledPredicate, QueryError>)
    ensures
        r == spec_conjoin(
            spec_decode_cursor(cursor),
            spec_time_param(range_start),
            spec_time_param(range_end),
            free_text,
        ),
{
    let id = decode_cursor(cursor);
    let start = decode_time_param(range_start);
    let end = decode_time_param(range_end);
    conjoin(id, start, end, free_text)
}

/// With no part given, the compiled predicate holds of every record.
pub proof fn lemma_nothing_given_matches_all(id: int, created_at: int, fragment_holds: bool)
    ensures
        spec_conjoin(None, None, None, None) is Ok,
        spec_conjoin(None, None, None, None)->Ok_0.spec_is_match_all(),
        spec_conjoin(None, None, None, None)->Ok_0.spec_accepts(id, created_at, fragment_holds),
{
}

/// A predicate without conditions holds of every record.
pub proof fn lemma_match_all_accepts(
    predicate: CompiledPredicate,
    id: int,
    created_at: int,
    fragment_holds: bool,
)
    requires
        predicate.spec_is_match_all(),
    ensures
        predicate.spec_accepts(id, created_at, fragment_holds),
{
}

/// A cursor that does not decode to an integer compiles as if no cursor had
/// been given.
pub proof fn lemma_undecodable_cursor_is_omitted(
    cursor: &str,
    range_start: Option<&str>,
    range_end: Option<&str>,
    free_text: Option<Result<FilterFragment, ParseFailure>>,
)
    requires
        spec_decode_cursor(Some(cursor)) is None,
    ensures
        spec_conjoin(
            spec_decode_cursor(Some(cursor)),
            spec_time_param(range_start),
            spec_time_param(range_end),
            free_text,
        ) == spec_conjoin(
            spec_decode_cursor(None),
            spec_time_param(range_start),
            spec_time_param(range_end),
            free_text,
        ),
{
}

/// Every condition narrows: a record that a predicate accepts is accepted by
/// the predicate with any one condition removed.
pub proof fn lemma_conditions_only_narrow(
    predicate: CompiledPredicate,
    id: int,
    created_at: int,
    fragment_holds: bool,
)
    requires
        predicate.spec_accepts(id, created_at, fragment_holds),
    ensures
        (CompiledPredicate { cursor: None, ..predicate }).spec_accepts(id, created_at, fragment_holds),
        (CompiledPredicate { range_start: None, ..predicate }).spec_accepts(id, created_at, fragment_holds),
        (CompiledPredicate { range_end: None, ..predicate }).spec_accepts(id, created_at, fragment_holds),
        (CompiledPredicate { fragment: None, ..predicate }).spec_accepts(id, created_at, fragment_holds),
{
}

} // verus!
