//! Calls into the outside crates that the validation rules rest on. Each
//! function here is believed, not proved: its doc comment says what its
//! contract claims of the outside code.

use chrono::Datelike;
use vstd::prelude::*;

verus! {

/// What `regex` makes of `pattern` and `text`: `None` when the pattern does
/// not compile, otherwise whether the compiled pattern matches somewhere in
/// the text.
pub uninterp spec fn regex_outcome(pattern: Seq<char>, text: Seq<char>) -> Option<bool>;

/// Compiles `pattern` with `regex::Regex::new` and, when that succeeds,
/// answers `Regex::is_match` on `text`. Claimed: the answer depends on the
/// pattern and the text alone (`regex_outcome`); what the pattern language
/// means is left to the `regex` crate.
#[verifier::external_body]
pub(crate) fn regex_is_match(pattern: &str, text: &str) -> (r: Option<bool>)
    ensures
        r == regex_outcome(pattern@, text@),
{
    match regex::Regex::new(pattern) {
        Ok(re) => Some(re.is_match(text)),
        Err(_) => None,
    }
}

/// The 128-bit value that `uuid::Uuid::parse_str` reads from a text, if it
/// accepts the text.
pub uninterp spec fn uuid_of_text(text: Seq<char>) -> Option<u128>;

/// `uuid::Uuid::parse_str`, the accepted UUID given by its `as_u128` value.
/// Claimed: the outcome depends on the text alone (`uuid_of_text`); which
/// of the textual forms the crate accepts is left to it.
#[verifier::external_body]
pub(crate) fn parse_uuid(text: &str) -> (r: Option<u128>)
    ensures
        r == uuid_of_text(text@),
{
    match uuid::Uuid::parse_str(text) {
        Ok(u) => Some(u.as_u128()),
        Err(_) => None,
    }
}

/// The sign (-1, 0 or 1) of the decimal number that
/// `bigdecimal::BigDecimal::from_str` reads from a text, if it accepts it.
pub uninterp spec fn decimal_sign_of_text(text: Seq<char>) -> Option<i8>;

/// Parses a text with `bigdecimal::BigDecimal::from_str` and gives the sign
/// of the number (`BigDecimal::sign`: minus, no sign, plus as -1, 0, 1).
/// Claimed: the outcome depends on the text alone; the accepted number
/// syntax is left to the crate.
#[verifier::external_body]
pub(crate) fn parse_decimal_sign(text: &str) -> (r: Option<i8>)
    ensures
        r == decimal_sign_of_text(text@),
{
    match text.parse::<bigdecimal::BigDecimal>() {
        Ok(d) => match d.sign() {
            bigdecimal::num_bigint::Sign::Minus => Some(-1),
            bigdecimal::num_bigint::Sign::NoSign => Some(0),
            bigdecimal::num_bigint::Sign::Plus => Some(1),
        },
        Err(_) => None,
    }
}

/// The calendar date (year, month, day) that `chrono::NaiveDate::from_str`
/// reads from a text, if it accepts it.
pub uninterp spec fn calendar_date_of_text(text: Seq<char>) -> Option<(i32, u32, u32)>;

/// `chrono::NaiveDate::from_str`, the date given as (year, month, day)
/// through `Datelike`. Claimed: the outcome depends on the text alone
/// (`calendar_date_of_text`), and a month lies in 1..=12 and a day in
/// 1..=31, as `Datelike::month` and `Datelike::day` document.
#[verifier::external_body]
pub(crate) fn parse_calendar_date(text: &str) -> (r: Option<(i32, u32, u32)>)
    ensures
        r == calendar_date_of_text(text@),
        r matches Some(d) ==> 1 <= d.1 <= 12 && 1 <= d.2 <= 31,
{
    match text.parse::<chrono::NaiveDate>() {
        Ok(d) => Some((d.year(), d.month(), d.day())),
        Err(_) => None,
    }
}

/// Today's date on the machine's clock in its local time zone
/// (`chrono::Local::now().date_naive()`), as (year, month, day). It depends
/// on the clock and the time zone, so nothing ties two calls together;
/// claimed only that the month lies in 1..=12 and the day in 1..=31.
#[verifier::external_body]
pub(crate) fn today_local() -> (r: (i32, u32, u32))
    ensures
        1 <= r.1 <= 12 && 1 <= r.2 <= 31,
{
    let d = chrono::Local::now().date_naive();
    (d.year(), d.month(), d.day())
}

/// The hexadecimal digit of a value below 16, in lower case.
pub open spec fn hex_digit(n: int) -> char {
    if n < 10 {
        (('0' as int) + n) as char
    } else {
        (('a' as int) + n - 10) as char
    }
}

/// The `i`-th of the 32 hexadecimal digits of a 128-bit value, the most
/// significant first.
pub open spec fn hex_nibble(v: u128, i: int) -> int {
    (v as int / vstd::arithmetic::power::pow(16, (31 - i) as nat)) % 16
}

/// The hyphenated lower-case form of a UUID (8-4-4-4-12 hexadecimal
/// digits), given by its 128-bit value.
pub open spec fn uuid_hyphenated(v: u128) -> Seq<char> {
    let h = Seq::new(32, |i: int| hex_digit(hex_nibble(v, i)));
    h.subrange(0, 8) + seq!['-'] + h.subrange(8, 12) + seq!['-'] + h.subrange(12, 16) + seq!['-']
        + h.subrange(16, 20) + seq!['-'] + h.subrange(20, 32)
}

/// `uuid::Uuid::from_u128(v).to_string()`: the UUID's `Display`, which
/// the crate writes as the hyphenated lower-case form (`uuid_hyphenated`).
#[verifier::external_body]
pub(crate) fn uuid_text(v: u128) -> (r: String)
    ensures
        r@ == uuid_hyphenated(v),
{
    uuid::Uuid::from_u128(v).to_string()
}

} // verus!
