//! Choosing what to compute over the records of a bucket.

use vstd::prelude::*;
use vstd::string::is_ascii;
use vstd::string::is_ascii_spec_bytes;
use vstd::string::StrSliceExecFns;
use crate::error::QueryError;
use crate::predicate::ParseFailure;

verus! {

/// The aggregates that can be asked for.
#[derive(Clone, Copy, Debug, PartialEq, Eq, Structural)]
pub enum AggregateKind {
    /// Number of records.
    Count,
    /// Sum of a field.
    Sum,
    /// Mean of a field.
    Avg,
    /// Least value of a field.
    Min,
    /// Greatest value of a field.
    Max,
}

impl AggregateKind {
    /// Whether the aggregate is computed over a field of the record's data.
    pub open spec fn spec_needs_field(self) -> bool {
        self != AggregateKind::Count
    }

    /// Whether the aggregate is computed over a field of the record's data.
    pub fn needs_field(&self) -> (r: bool)
        ensures
            r == self.spec_needs_field(),
    {
        match self {
            AggregateKind::Count => false,
            _ => true,
        }
    }

    /// The name under which the aggregate is asked for.
    pub open spec fn spec_name(self) -> Seq<char> {
        match self {
            AggregateKind::Count => "count"@,
            AggregateKind::Sum => "sum"@,
            AggregateKind::Avg => "avg"@,
            AggregateKind::Min => "min"@,
            AggregateKind::Max => "max"@,
        }
    }

    /// The name under which the aggregate is asked for.
    pub fn name(&self) -> (r: &'static str)
        ensures
            r@ == self.spec_name(),
    {
        match self {
            AggregateKind::Count => "count",
            AggregateKind::Sum => "sum",
            AggregateKind::Avg => "avg",
            AggregateKind::Min => "min",
            AggregateKind::Max => "max",
        }
    }
}

/// A validated reference to a field of a record's data document, as the
/// parser of field names hands it over.
#[derive(Clone, Debug, PartialEq, Eq)]
pub struct FieldExpression {
    /// The field's name or path inside the data document.
    pub path: String,
}

/// Whether a character may stand in the name of a field: a letter of the
/// English alphabet, a digit, `_`, or the `.` that parts the steps of a path.
pub open spec fn spec_is_name_char(c: char) -> bool {
    ('a' <= c <= 'z') || ('A' <= c <= 'Z') || ('0' <= c <= '9') || c == '_' || c == '.'
}

/// Whether a text is the name of a field: not empty, made of name characters
/// alone, and starting with none of the digits and no `.`.
pub open spec fn spec_is_field_name(text: Seq<char>) -> bool {
    &&& text.len() > 0
    &&& !('0' <= text[0] <= '9')
    &&& text[0] != '.'
    &&& forall|i: int| 0 <= i < text.len() ==> spec_is_name_char(#[trigger] text[i])
}

/// Whether a byte is the code of a name character.
fn is_name_byte(b: u8) -> (r: bool)
    ensures
        r == ((97 <= b <= 122) || (65 <= b <= 90) || (48 <= b <= 57) || b == 95 || b == 46),
{
    (97 <= b && b <= 122) || (65 <= b && b <= 90) || (48 <= b && b <= 57) || b == 95 || b == 46
}

/// Reads the name of a field. A text that is no field name is rejected, so
/// that nothing but a name ever reaches the store in a field's place.
pub fn parse_parameter_name(text: String) -> (r: Result<FieldExpression, ParseFailure>)
    ensures
        spec_is_field_name(text@) ==> r == Ok::<FieldExpression, ParseFailure>(
            FieldExpression { path: text },
        ),
        !spec_is_field_name(text@) ==> r is Err,
{
    broadcast use is_ascii_spec_bytes;

    let name = text.as_str();
    if !name.is_ascii() {
        return Err(ParseFailure);
    }
    let bytes = name.as_bytes();
    let n: usize = bytes.len();
    assert(forall|k: int| 0 <= k < n ==> bytes@[k] == name@[k] as u8);
    if n == 0 || (48 <= bytes[0] && bytes[0] <= 57) || bytes[0] == 46 {
        return Err(ParseFailure);
    }
    let mut i: usize = 0;
    while i < n
        invariant
            i <= n,
            name@ == text@,
            n == name@.len(),
            n == bytes@.len(),
            is_ascii(name),
            forall|k: int| 0 <= k < n ==> bytes@[k] == name@[k] as u8,
            forall|k: int| 0 <= k < i ==> spec_is_name_char(#[trigger] name@[k]),
        decreases n - i,
    {
        if !is_name_byte(bytes[i]) {
            assert(!spec_is_name_char(name@[i as int]));
            return Err(ParseFailure);
        }
        i = i + 1;
    }
    Ok(FieldExpression { path: text })
}

/// What to compute: the aggregate and, unless it is a count, the field.
#[derive(Clone, Debug, PartialEq, Eq)]
pub struct AggregateSpec {
    /// The aggregate.
    pub kind: AggregateKind,
    /// The field it is computed over; `None` exactly for a count.
    pub field_expression: Option<FieldExpression>,
}

impl AggregateSpec {
    /// A count has no field and every other aggregate has one.
    pub open spec fn wf(&self) -> bool {
        self.kind.spec_needs_field() == self.field_expression.is_some()
    }
}

/// The aggregate that a name stands for.
pub open spec fn spec_kind_of_name(name: Seq<char>) -> Option<AggregateKind> {
    if name == "count"@ {
        Some(AggregateKind::Count)
    } else if name == "max"@ {
        Some(AggregateKind::Max)
    } else if name == "min"@ {
        Some(AggregateKind::Min)
    } else if name == "avg"@ {
        Some(AggregateKind::Avg)
    } else if name == "sum"@ {
        Some(AggregateKind::Sum)
    } else {
        None
    }
}

/// Whether two texts are the same, character by character.
pub fn same_text(a: &str, b: &str) -> (r: bool)
    ensures
        r == (a@ == b@),
{
    let n: usize = a.unicode_len();
    if n != b.unicode_len() {
        return false;
    }
    let mut i: usize = 0;
    while i < n
        invariant
            n == a@.len(),
            n == b@.len(),
            i <= n,
            forall|k: int| 0 <= k < i ==> a@[k] == b@[k],
        decreases n - i,
    {
        if a.get_char(i) != b.get_char(i) {
            return false;
        }
        i = i + 1;
    }
    assert(a@ =~= b@);
    true
}

/// Reads the name of an aggregate. Names are matched exactly: case and
/// surrounding space count.
pub fn kind_of_name(name: &str) -> (r: Option<AggregateKind>)
    ensures
        r == spec_kind_of_name(name@),
{
    if same_text(name, "count") {
        Some(AggregateKind::Count)
    } else if same_text(name, "max") {
        Some(AggregateKind::Max)
    } else if same_text(name, "min") {
        Some(AggregateKind::Min)
    } else if same_text(name, "avg") {
        Some(AggregateKind::Avg)
    } else if same_text(name, "sum") {
        Some(AggregateKind::Sum)
    } else {
        None
    }
}

/// What a request's aggregate name and field give. A field that its parser
/// rejected is reported first; then a missing aggregate name; then one that
/// is not known; then a field that is absent where the aggregate needs one.
/// A count keeps no field.
pub open spec fn spec_select(
    kind: Option<Seq<char>>,
    field_name: Option<Result<FieldExpression, ParseFailure>>,
) -> Result<AggregateSpec, QueryError> {
    if field_name matches Some(Err(_)) {
        Err(QueryError::MalformedFieldName)
    } else {
        match kind {
            None => Err(QueryError::MissingAggregateError),
            Some(name) => match spec_kind_of_name(name) {
                None => Err(QueryError::UnknownAggregateError),
                Some(AggregateKind::Count) => Ok(
                    AggregateSpec { kind: AggregateKind::Count, field_expression: None },
                ),
                Some(k) => match field_name {
                    Some(Ok(field)) => Ok(AggregateSpec { kind: k, field_expression: Some(field) }),
                    _ => Err(QueryError::MalformedFieldName),
                },
            },
        }
    }
}

/// The name of an optional text.
pub open spec fn spec_text(text: Option<&str>) -> Option<Seq<char>> {
    match text {
        Some(s) => Some(s@),
        None => None,
    }
}

/// Selects the aggregate of a request.
///
/// `kind` is the aggregate's name as it came in the request. `field_name` is
/// what the parser of field names made of the decoded name of the field, or
/// `None` where the request had none.
pub fn select(
    kind: Option<&str>,
    field_name: Option<Result<FieldExpression, ParseFailure>>,
) -> (r: Result<AggregateSpec, QueryError>)
    ensures
        r == spec_select(spec_text(kind), field_name),
        r is Ok ==> r->Ok_0.wf(),
{
    let field = match field_name {
        Some(Err(_)) => { return Err(QueryError::MalformedFieldName); },
        Some(Ok(field)) => Some(field),
        None => None,
    };
    let name = match kind {
        Some(name) => name,
        None => { return Err(QueryError::MissingAggregateError); },
    };
    match kind_of_name(name) {
        None => Err(QueryError::UnknownAggregateError),
        Some(AggregateKind::Count) => Ok(
            AggregateSpec { kind: AggregateKind::Count, field_expression: None },
        ),
        Some(k) => match field {
            Some(f) => Ok(AggregateSpec { kind: k, field_expression: Some(f) }),
            None => Err(QueryError::MalformedFieldName),
        },
    }
}

/// Reading a kind's own name gives the kind back.
pub proof fn lemma_name_round_trip(kind: AggregateKind)
    ensures
        spec_kind_of_name(kind.spec_name()) == Some(kind),
{
    reveal_strlit("count");
    reveal_strlit("max");
    reveal_strlit("min");
    reveal_strlit("avg");
    reveal_strlit("sum");
    assert("count"@.len() == 5);
    assert("max"@[1] == 'a');
    assert("min"@[1] == 'i');
    assert("avg"@[1] == 'v');
    assert("sum"@[1] == 'u');
}

/// A name that no aggregate bears is turned down as unknown, whatever the
/// field, unless the field itself was rejected.
pub proof fn lemma_unknown_name_is_rejected(
    name: Seq<char>,
    field_name: Option<Result<FieldExpression, ParseFailure>>,
)
    requires
        spec_kind_of_name(name) is None,
        !(field_name matches Some(Err(_))),
    ensures
        spec_select(Some(name), field_name) == Err::<AggregateSpec, QueryError>(
            QueryError::UnknownAggregateError,
        ),
{
}

} // verus!
