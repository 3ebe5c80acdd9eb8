//! Turning raw request parameters into text and numbers.

use vstd::prelude::*;
use vstd::string::is_ascii;
use vstd::string::is_ascii_spec_bytes;

verus! {

/// What `rocket::http::RawStr::url_decode` makes of a raw parameter: the
/// decoded text, or `None` where the percent-encoded bytes are not UTF-8.
pub uninterp spec fn url_decoded(raw: Seq<char>) -> Option<Seq<char>>;

/// Whether a character is one of the ten digits.
pub open spec fn spec_is_digit(c: char) -> bool {
    '0' <= c <= '9'
}

/// Whether a text is made of digits alone.
pub open spec fn spec_all_digits(text: Seq<char>) -> bool {
    forall|i: int| 0 <= i < text.len() ==> spec_is_digit(#[trigger] text[i])
}

/// The number that a text of digits spells in base ten.
pub open spec fn spec_digits_value(digits: Seq<char>) -> int
    decreases digits.len(),
{
    if digits.len() == 0 {
        0
    } else {
        10 * spec_digits_value(digits.drop_last()) + (digits.last() as int - '0' as int)
    }
}

/// Whether a text starts with a sign.
pub open spec fn spec_has_sign(text: Seq<char>) -> bool {
    text.len() > 0 && (text[0] == '-' || text[0] == '+')
}

/// A text without its sign.
pub open spec fn spec_unsigned_part(text: Seq<char>) -> Seq<char> {
    if spec_has_sign(text) {
        text.skip(1)
    } else {
        text
    }
}

/// The integer that a text spells: an optional `+` or `-`, then one or more
/// digits and nothing else, with a value that fits 32 bits. Any other text
/// spells none.
pub open spec fn integer_of_text(text: Seq<char>) -> Option<i32> {
    let digits = spec_unsigned_part(text);
    let magnitude = spec_digits_value(digits);
    let value = if text.len() > 0 && text[0] == '-' {
        -magnitude
    } else {
        magnitude
    };
    if digits.len() > 0 && spec_all_digits(digits) && i32::MIN <= value <= i32::MAX {
        Some(value as i32)
    } else {
        None
    }
}

/// A text of digits spells no negative number.
pub proof fn lemma_digits_value_is_natural(digits: Seq<char>)
    requires
        spec_all_digits(digits),
    ensures
        spec_digits_value(digits) >= 0,
    decreases digits.len(),
{
    if digits.len() > 0 {
        assert(spec_is_digit(digits[digits.len() - 1]));
        lemma_digits_value_is_natural(digits.drop_last());
    }
}

/// A text of digits spells at least what any of its beginnings spells.
pub proof fn lemma_digits_value_grows(digits: Seq<char>, k: int)
    requires
        spec_all_digits(digits),
        0 <= k <= digits.len(),
    ensures
        spec_digits_value(digits.take(k)) <= spec_digits_value(digits),
    decreases digits.len(),
{
    if k == digits.len() {
        assert(digits.take(k) =~= digits);
    } else {
        let shorter = digits.drop_last();
        assert(spec_is_digit(digits[digits.len() - 1]));
        assert(shorter.take(k) =~= digits.take(k));
        lemma_digits_value_grows(shorter, k);
        lemma_digits_value_is_natural(shorter);
    }
}

/// A text with a character that is no digit, other than a sign in front,
/// spells no integer.
pub proof fn lemma_non_digit_spells_nothing(text: Seq<char>, i: int)
    requires
        0 <= i < text.len(),
        !spec_is_digit(text[i]),
        i > 0 || !spec_has_sign(text),
    ensures
        integer_of_text(text) is None,
{
    let digits = spec_unsigned_part(text);
    if spec_has_sign(text) {
        assert(digits[i - 1] == text[i]);
    } else {
        assert(digits[i] == text[i]);
    }
}

/// Calls `rocket::http::RawStr::url_decode` on `raw`: percent decoding, with
/// each `+` read as a space. The decoding is a function of the text alone;
/// the contract gives its outcome the name `url_decoded` and claims nothing
/// else of it.
#[verifier::external_body]
fn url_decode(raw: &str) -> (r: Option<String>)
    ensures
        match r {
            Some(text) => url_decoded(raw@) == Some(text@),
            None => url_decoded(raw@).is_none(),
        },
{
    match rocket::http::RawStr::new(raw).url_decode() {
        Ok(text) => Some(text.into_owned()),
        Err(_) => None,
    }
}

/// Reads a decimal integer of 32 bits: an optional sign and digits, nothing
/// before, between or after them.
pub fn parse_integer(text: &str) -> (r: Option<i32>)
    ensures
        r == integer_of_text(text@),
{
    broadcast use is_ascii_spec_bytes;

    if !text.is_ascii() {
        proof {
            let i = choose|i: int| 0 <= i < text@.len() && !('\0' <= #[trigger] text@[i] <= '\u{7f}');
            lemma_non_digit_spells_nothing(text@, i);
        }
        return None;
    }
    let bytes = text.as_bytes();
    let n: usize = bytes.len();
    assert(forall|k: int| 0 <= k < n ==> bytes@[k] == text@[k] as u8);
    let mut i: usize = 0;
    let mut negative = false;
    if n > 0 && (bytes[0] == 45u8 || bytes[0] == 43u8) {
        negative = bytes[0] == 45u8;
        i = 1;
    }
    let first: usize = i;
    let ghost digits = spec_unsigned_part(text@);
    assert(digits =~= text@.skip(first as int));
    if i == n {
        return None;
    }
    let mut acc: i64 = 0;
    while i < n
        invariant
            first <= i <= n,
            n == text@.len(),
            n == bytes@.len(),
            is_ascii(text),
            forall|k: int| 0 <= k < n ==> bytes@[k] == text@[k] as u8,
            digits == text@.skip(first as int),
            digits == spec_unsigned_part(text@),
            spec_all_digits(digits.take(i - first)),
            acc == spec_digits_value(digits.take(i - first)),
            0 <= acc <= 2147483648,
        decreases n - i,
    {
        let b: u8 = bytes[i];
        assert(digits[i - first] == text@[i as int]);
        if b < 48u8 || b > 57u8 {
            proof {
                assert(!spec_is_digit(digits[i - first]));
            }
            return None;
        }
        proof {
            let longer = digits.take(i + 1 - first);
            assert(longer.drop_last() =~= digits.take(i - first));
            assert(longer.last() == digits[i - first]);
            assert(spec_is_digit(digits[i - first]));
        }
        acc = acc * 10 + (b - 48u8) as i64;
        i = i + 1;
        if acc > 2147483648 {
            proof {
                if spec_all_digits(digits) {
                    lemma_digits_value_grows(digits, i - first);
                }
            }
            return None;
        }
    }
    assert(digits.take(i - first) =~= digits);
    if negative {
        Some((-acc) as i32)
    } else if acc > 2147483647 {
        None
    } else {
        Some(acc as i32)
    }
}

/// The text that a parameter carries, if it is given and decodes.
pub open spec fn spec_decode_text(raw: Option<&str>) -> Option<Seq<char>> {
    match raw {
        Some(s) => url_decoded(s@),
        None => None,
    }
}

/// The record id that a cursor parameter carries, if it is given, decodes
/// and spells an integer.
pub open spec fn spec_decode_cursor(raw: Option<&str>) -> Option<i32> {
    match spec_decode_text(raw) {
        Some(text) => integer_of_text(text),
        None => None,
    }
}

/// Decodes a parameter whose text goes on to a parser of its own (the filter
/// expression, the name of a field). A parameter that is absent or does not
/// decode yields `None`.
pub fn decode_text(raw: Option<&str>) -> (r: Option<String>)
    ensures
        match r {
            Some(text) => spec_decode_text(raw) == Some(text@),
            None => spec_decode_text(raw).is_none(),
        },
{
    match raw {
        Some(s) => url_decode(s),
        None => None,
    }
}

/// Decodes a pagination cursor. A cursor that is absent, does not decode or
/// spells no integer yields `None`: it is passed over, never reported.
pub fn decode_cursor(raw: Option<&str>) -> (r: Option<i32>)
    ensures
        r == spec_decode_cursor(raw),
{
    match decode_text(raw) {
        Some(text) => parse_integer(text.as_str()),
        None => None,
    }
}

} // verus!
