use metrix::decode::decode_cursor;
use metrix::decode::decode_text;
use metrix::decode::parse_integer;
use metrix::error::QueryError;
use metrix::predicate::compile;
use metrix::predicate::conjoin;
use metrix::predicate::CompareOp;
use metrix::predicate::CompiledPredicate;
use metrix::predicate::FilterFragment;
use metrix::predicate::Literal;
use metrix::predicate::ParseFailure;

fn fragment() -> FilterFragment {
    FilterFragment {
        field: String::from("temperature"),
        op: CompareOp::Greater,
        literal: Literal::Integer(20),
    }
}

#[test]
fn text_is_url_decoded() {
    assert_eq!(decode_text(Some("Hello%2C+world%21")), Some(String::from("Hello, world!")));
    assert_eq!(decode_text(Some("a%3Db")), Some(String::from("a=b")));
    assert_eq!(decode_text(Some("plain")), Some(String::from("plain")));
    assert_eq!(decode_text(Some("")), Some(String::new()));
    assert_eq!(decode_text(Some("%FF")), None);
    assert_eq!(decode_text(None), None);
}

#[test]
fn cursor_is_decoded_as_integer() {
    assert_eq!(decode_cursor(Some("42")), Some(42));
    assert_eq!(decode_cursor(Some("0")), Some(0));
    assert_eq!(decode_cursor(Some("-7")), Some(-7));
    assert_eq!(decode_cursor(Some("%34%32")), Some(42));
    assert_eq!(decode_cursor(Some("2147483647")), Some(i32::MAX));
}

#[test]
fn undecodable_cursor_is_none() {
    assert_eq!(decode_cursor(None), None);
    assert_eq!(decode_cursor(Some("abc")), None);
    assert_eq!(decode_cursor(Some("")), None);
    assert_eq!(decode_cursor(Some("1 OR 1=1")), None);
    assert_eq!(decode_cursor(Some("4.2")), None);
    assert_eq!(decode_cursor(Some("2147483648")), None);
    assert_eq!(decode_cursor(Some("%FF")), None);
}

#[test]
fn nothing_given_matches_every_record() {
    let predicate = compile(None, None, None, None).unwrap();
    assert_eq!(predicate, CompiledPredicate::match_all());
    assert!(predicate.is_match_all());
    assert_eq!(predicate.condition_count(), 0);
    assert!(predicate.accepts(1, 0, false));
    assert!(predicate.accepts(i32::MIN, i64::MIN, false));
    assert!(predicate.accepts(i32::MAX, i64::MAX, true));
}

#[test]
fn invalid_cursor_is_as_if_omitted() {
    let with_bad = compile(Some("abc"), Some("2020-01-01T00:00:00"), None, None);
    let without = compile(None, Some("2020-01-01T00:00:00"), None, None);
    assert!(with_bad.is_ok());
    assert_eq!(with_bad, without);
    assert_eq!(compile(Some("abc"), None, None, None), Ok(CompiledPredicate::match_all()));
}

#[test]
fn cursor_is_exclusive_lower_bound() {
    let predicate = compile(Some("10"), None, None, None).unwrap();
    assert_eq!(predicate.cursor, Some(10));
    assert_eq!(predicate.condition_count(), 1);
    assert!(!predicate.accepts(9, 0, true));
    assert!(!predicate.accepts(10, 0, true));
    assert!(predicate.accepts(11, 0, true));
}

#[test]
fn time_bounds_are_inclusive() {
    let predicate =
        compile(None, Some("2020-01-01T00:00:00"), Some("2020-01-01T01:00:00"), None).unwrap();
    assert_eq!(predicate.range_start, Some(1_577_836_800));
    assert_eq!(predicate.range_end, Some(1_577_840_400));
    assert_eq!(predicate.condition_count(), 2);
    assert!(!predicate.accepts(1, 1_577_836_799, true));
    assert!(predicate.accepts(1, 1_577_836_800, true));
    assert!(predicate.accepts(1, 1_577_840_400, true));
    assert!(!predicate.accepts(1, 1_577_840_401, true));
}

#[test]
fn invalid_time_bounds_are_ignored_in_plain_queries() {
    let predicate = compile(None, Some("yesterday"), Some("2020-01-01"), None).unwrap();
    assert!(predicate.is_match_all());
    let predicate = compile(None, Some("yesterday"), Some("2020-01-01T01:00:00"), None).unwrap();
    assert_eq!(predicate.range_start, None);
    assert_eq!(predicate.range_end, Some(1_577_840_400));
}

#[test]
fn parsed_fragment_is_conjoined() {
    let predicate = compile(Some("5"), None, None, Some(Ok(fragment()))).unwrap();
    assert_eq!(predicate.fragment, Some(fragment()));
    assert_eq!(predicate.cursor, Some(5));
    assert_eq!(predicate.condition_count(), 2);
    assert!(predicate.accepts(6, 0, true));
    assert!(!predicate.accepts(6, 0, false));
    assert!(!predicate.accepts(5, 0, true));
}

#[test]
fn rejected_fragment_aborts_compilation() {
    assert_eq!(
        compile(None, None, None, Some(Err(ParseFailure))),
        Err(QueryError::MalformedFilterExpression)
    );
    assert_eq!(
        compile(Some("5"), Some("2020-01-01T00:00:00"), None, Some(Err(ParseFailure))),
        Err(QueryError::MalformedFilterExpression)
    );
    assert_eq!(
        conjoin(Some(1), Some(Some(2)), Some(Some(3)), Some(Err(ParseFailure))),
        Err(QueryError::MalformedFilterExpression)
    );
}

#[test]
fn conjoin_keeps_each_part() {
    let predicate = conjoin(Some(1), Some(Some(2)), Some(None), Some(Ok(fragment()))).unwrap();
    assert_eq!(
        predicate,
        CompiledPredicate {
            cursor: Some(1),
            range_start: Some(2),
            range_end: None,
            fragment: Some(fragment()),
        }
    );
    assert_eq!(predicate.condition_count(), 3);
}

#[test]
fn integers_are_read_in_decimal() {
    assert_eq!(parse_integer("0"), Some(0));
    assert_eq!(parse_integer("007"), Some(7));
    assert_eq!(parse_integer("+5"), Some(5));
    assert_eq!(parse_integer("-0"), Some(0));
    assert_eq!(parse_integer("-12"), Some(-12));
    assert_eq!(parse_integer("2147483647"), Some(i32::MAX));
    assert_eq!(parse_integer("-2147483648"), Some(i32::MIN));
    assert_eq!(parse_integer("00000000000000000000123"), Some(123));
}

#[test]
fn integers_agree_with_the_standard_parser() {
    let texts = [
        "", "+", "-", "--1", "+-1", "1-", "1+", " 1", "1 ", "1_000", "0x10", "1e3", "abc", "12a",
        "a12", "4.2", "2147483648", "-2147483649", "99999999999999999999", "\u{663}", "1\u{e9}",
        "42", "-42", "+42", "0", "-0", "+0", "000", "2147483647", "-2147483648",
    ];
    for text in texts {
        assert_eq!(parse_integer(text), text.parse::<i32>().ok(), "{:?}", text);
    }
}
