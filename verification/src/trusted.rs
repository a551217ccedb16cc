//! Declarations of outside types and the thin wrappers through which the library
//! calls outside code. Nothing here is proved: each contract is believed.
use vstd::prelude::*;
use rand::Rng;
use chrono::Datelike;
use crate::structs::Date;

verus! {

/// `std::time::SystemTime`, carried through opaquely.
#[verifier::external_type_specification]
#[verifier::external_body]
pub struct ExSystemTime(std::time::SystemTime);

/// `std::time::SystemTimeError`, carried through opaquely.
#[verifier::external_type_specification]
#[verifier::external_body]
pub struct ExSystemTimeError(std::time::SystemTimeError);

/// Reads the system clock through `std::time::SystemTime::now`.
/// Nothing is claimed of the value: it depends on the machine's clock.
#[verifier::external_body]
pub(crate) fn system_time_now() -> (t: std::time::SystemTime) {
    std::time::SystemTime::now()
}

/// `SystemTime::duration_since(UNIX_EPOCH)`: the time elapsed since the epoch,
/// or an error when the clock reads earlier than the epoch. Nothing is claimed
/// of the value, which is opaque here.
#[verifier::external_body]
pub(crate) fn duration_since_epoch(t: &std::time::SystemTime) -> (r: Result<
    std::time::Duration,
    std::time::SystemTimeError,
>) {
    t.duration_since(std::time::UNIX_EPOCH)
}

/// `Duration::as_secs`: the whole seconds of a duration. Nothing is claimed of
/// the value, since the duration itself is opaque here.
#[verifier::external_body]
pub(crate) fn duration_as_secs(d: &std::time::Duration) -> (s: u64) {
    d.as_secs()
}

/// `bcrypt::BcryptError`, carried through opaquely.
#[verifier::external_type_specification]
#[verifier::external_body]
pub struct ExBcryptError(bcrypt::BcryptError);

/// A character of the class `[0-9A-Za-z_.]`.
pub open spec fn is_name_char(c: char) -> bool {
    ('0' <= c && c <= '9') || ('A' <= c && c <= 'Z') || ('a' <= c && c <= 'z') || c == '_' || c
        == '.'
}

/// A character of the class `[0-9A-Za-z_]`.
pub open spec fn is_word_char(c: char) -> bool {
    ('0' <= c && c <= '9') || ('A' <= c && c <= 'Z') || ('a' <= c && c <= 'z') || c == '_'
}

/// A character of the class `[A-Za-z0-9]`.
pub open spec fn is_alphanumeric_char(c: char) -> bool {
    ('0' <= c && c <= '9') || ('A' <= c && c <= 'Z') || ('a' <= c && c <= 'z')
}

/// What compiling `pattern` with `regex::Regex::new` and then asking `is_match`
/// of `text` gives: `None` when the pattern does not compile.
pub uninterp spec fn regex_match_outcome(pattern: Seq<char>, text: Seq<char>) -> Option<bool>;

/// `regex::Regex::new(pattern)` followed by `Regex::is_match(text)`.
/// Claimed: the outcome is a function of the pattern and the text; and, as the
/// regex syntax documents (`^`/`$` anchor at the ends of the whole text, `+` is one
/// or more, the class is ASCII), the pattern `^[0-9A-Za-z_.]+$` compiles and
/// matches exactly the non-empty texts made of characters of that class; so does
/// `^[0-9A-Za-z_]+$` for its class.
#[verifier::external_body]
pub(crate) fn regex_is_match(pattern: &str, text: &str) -> (r: Option<bool>)
    ensures
        r == regex_match_outcome(pattern@, text@),
        pattern@ == "^[0-9A-Za-z_.]+$"@ ==> r == Some(
            text@.len() > 0 && forall|i: int| 0 <= i < text@.len() ==> is_name_char(#[trigger] text@[i]),
        ),
        pattern@ == "^[0-9A-Za-z_]+$"@ ==> r == Some(
            text@.len() > 0 && forall|i: int| 0 <= i < text@.len() ==> is_word_char(#[trigger] text@[i]),
        ),
{
    match regex::Regex::new(pattern) {
        Ok(re) => Some(re.is_match(text)),
        Err(_) => None,
    }
}

/// `rand::thread_rng().sample_iter(&rand::distributions::Alphanumeric)`, taking
/// `len` samples as characters. Claimed: `len` characters, each from the
/// distribution's charset `A-Z a-z 0-9`. Which ones is left to chance.
#[verifier::external_body]
pub(crate) fn random_alphanumeric(len: usize) -> (s: String)
    ensures
        s@.len() == len,
        forall|i: int| 0 <= i < s@.len() ==> is_alphanumeric_char(#[trigger] s@[i]),
{
    rand::thread_rng().sample_iter(&rand::distributions::Alphanumeric).take(len).map(char::from).collect()
}

/// What `bcrypt::verify(password, hash)` gives: `None` for a hash that does not
/// parse, else whether the password hashes to it.
pub uninterp spec fn bcrypt_verify_outcome(password: Seq<char>, hash: Seq<char>) -> Option<bool>;

/// The character of a decimal digit.
pub open spec fn decimal_digit(d: int) -> char {
    if d == 0 { '0' } else if d == 1 { '1' } else if d == 2 { '2' } else if d == 3 { '3' }
    else if d == 4 { '4' } else if d == 5 { '5' } else if d == 6 { '6' } else if d == 7 { '7' }
    else if d == 8 { '8' } else { '9' }
}

/// How a bcrypt hash of a cost below 100 begins: `$2b$`, the cost in two digits, `$`.
pub open spec fn bcrypt_prefix(cost: u32) -> Seq<char> {
    "$2b$"@ + seq![decimal_digit(cost as int / 10), decimal_digit(cost as int % 10)] + "$"@
}

/// `bcrypt::hash(password, cost)`. The salt is random, so the hash is not a
/// function of the arguments. Claimed, as the crate's source shows: a cost
/// outside `4..=31` is refused; a hash that is given back has 60 characters
/// and begins with `$2b$`, the cost in two digits and `$` (then 53 characters of
/// salt and hash: `format_for_version` with `Version::TwoB`), and `verify` accepts the
/// same password against it. A failure of the system's randomness is left open.
#[verifier::external_body]
pub(crate) fn bcrypt_hash(password: &str, cost: u32) -> (r: Result<String, bcrypt::BcryptError>)
    ensures
        !(4 <= cost <= 31) ==> r is Err,
        r matches Ok(h) ==> h@.len() == 60 && h@.subrange(0, 7) == bcrypt_prefix(cost)
            && bcrypt_verify_outcome(password@, h@) == Some(true),
{
    bcrypt::hash(password, cost)
}

/// `bcrypt::verify(password, hash)`. Claimed: the outcome is a function of the
/// password and the hash (the check recomputes the hash with the stored salt).
#[verifier::external_body]
pub(crate) fn bcrypt_verify(password: &str, hash: &str) -> (r: Result<bool, bcrypt::BcryptError>)
    ensures
        r is Ok <==> bcrypt_verify_outcome(password@, hash@) is Some,
        r matches Ok(b) ==> bcrypt_verify_outcome(password@, hash@) == Some(b),
{
    bcrypt::verify(password, hash)
}

/// `uuid::Uuid::new_v4().to_string()`: a random UUID in its hyphenated
/// lower-case form. Claimed: 36 characters. Which ones is left to chance.
#[verifier::external_body]
pub(crate) fn new_uuid_v4_string() -> (s: String)
    ensures
        s@.len() == 36,
{
    uuid::Uuid::new_v4().to_string()
}

/// The year, month and day that `chrono::NaiveDate`'s `FromStr` reads from a
/// text (a year, a month and a day that exist, separated by `-`), or `None`
/// when it refuses the text.
pub uninterp spec fn parsed_naive_date(text: Seq<char>) -> Option<(int, int, int)>;

/// `text.parse::<chrono::NaiveDate>()`, with the date read out by `Datelike`'s
/// `year`, `month` and `day`. Claimed: the outcome is a function of the text,
/// and a date that comes back has a month of `1..=12` and a day of `1..=31`.
#[verifier::external_body]
pub(crate) fn parse_naive_date(text: &str) -> (r: Option<Date>)
    ensures
        r is Some <==> parsed_naive_date(text@) is Some,
        r matches Some(d) ==> parsed_naive_date(text@) == Some((d.year as int, d.month as int, d.day as int)),
        r matches Some(d) ==> 1 <= d.month <= 12 && 1 <= d.day <= 31,
{
    match text.parse::<chrono::NaiveDate>() {
        Ok(d) => Some(Date { year: d.year(), month: d.month(), day: d.day() }),
        Err(_) => None,
    }
}

/// `String::from_utf8(bytes)`. Claimed, as std documents: it succeeds exactly
/// when the bytes are valid UTF-8, and then holds the characters they encode.
#[verifier::external_body]
pub(crate) fn string_from_utf8(bytes: Vec<u8>) -> (r: Option<String>)
    ensures
        r is Some <==> vstd::utf8::valid_utf8(bytes@),
        r matches Some(s) ==> s@ == vstd::utf8::decode_utf8(bytes@),
{
    String::from_utf8(bytes).ok()
}

/// The value of a non-empty run of decimal digits.
pub open spec fn decimal_value(digits: Seq<char>) -> int
    decreases digits.len(),
{
    if digits.len() == 0 {
        0
    } else {
        decimal_value(digits.drop_last()) * 10 + (digits.last() as int - '0' as int)
    }
}

/// What `str::parse::<i32>` gives, as std documents it: an optional `+` or `-`
/// sign followed by one or more decimal digits, whose value fits in an `i32`.
pub open spec fn parsed_i32(text: Seq<char>) -> Option<i32> {
    let negative = text.len() > 0 && text[0] == '-';
    let signed = text.len() > 0 && (text[0] == '-' || text[0] == '+');
    let digits = if signed { text.drop_first() } else { text };
    let value = if negative { -decimal_value(digits) } else { decimal_value(digits) };
    if digits.len() > 0 && (forall|i: int| 0 <= i < digits.len() ==> '0' <= #[trigger] digits[i] <= '9')
        && i32::MIN <= value <= i32::MAX {
        Some(value as i32)
    } else {
        None
    }
}

/// `text.parse::<i32>()`: claimed to give what `parsed_i32` states.
#[verifier::external_body]
pub(crate) fn parse_i32(text: &str) -> (r: Option<i32>)
    ensures
        r == parsed_i32(text@),
{
    text.parse::<i32>().ok()
}

} // verus!
