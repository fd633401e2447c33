//! Identifiers and timestamps for the audit trail.

use chrono::Utc;
use uuid::Uuid;
use vstd::prelude::*;

verus! {

/// A digit of a lower-case hexadecimal number.
pub open spec fn is_hex_digit(c: char) -> bool {
    '0' <= c <= '9' || 'a' <= c <= 'f'
}

/// The hyphenated text of a random (version 4) UUID.
pub open spec fn is_random_uuid(text: Seq<char>) -> bool {
    &&& text.len() == 36
    &&& forall|i: int|
        0 <= i < 36 ==> if i == 8 || i == 13 || i == 18 || i == 23 {
            #[trigger] text[i] == '-'
        } else {
            is_hex_digit(text[i])
        }
    &&& text[14] == '4'
    &&& text[19] == '8' || text[19] == '9' || text[19] == 'a' || text[19] == 'b'
}

/// A decimal digit.
pub open spec fn is_digit(c: char) -> bool {
    '0' <= c <= '9'
}

/// Whether a text has the given form, in which `#` stands for a decimal digit and any other
/// character for itself.
pub open spec fn has_form(text: Seq<char>, form: Seq<char>) -> bool {
    &&& text.len() == form.len()
    &&& forall|i: int|
        0 <= i < form.len() ==> if form[i] == '#' {
            is_digit(#[trigger] text[i])
        } else {
            text[i] == form[i]
        }
}

/// A year: four digits, or a sign and at least four.
pub open spec fn is_year(text: Seq<char>) -> bool {
    ||| has_form(text, "####"@)
    ||| {
        &&& text.len() >= 5
        &&& text[0] == '+' || text[0] == '-'
        &&& forall|i: int| 1 <= i < text.len() ==> is_digit(#[trigger] text[i])
    }
}

/// A fraction of a second: none, or one in milliseconds, microseconds or nanoseconds.
pub open spec fn is_fraction(text: Seq<char>) -> bool {
    ||| text.len() == 0
    ||| has_form(text, ".###"@)
    ||| has_form(text, ".######"@)
    ||| has_form(text, ".#########"@)
}

/// The text of a point in time in UTC, as RFC 3339 and ISO 8601 write it: year, month and day, hour,
/// minute and second, a fraction of a second where there is one, and the offset.
pub open spec fn is_utc_time(text: Seq<char>) -> bool {
    exists|year: Seq<char>, time: Seq<char>, fraction: Seq<char>|
        {
            &&& #[trigger] is_year(year)
            &&& #[trigger] has_form(time, "-##-##T##:##:##"@)
            &&& #[trigger] is_fraction(fraction)
            &&& text == year + time + fraction + "+00:00"@
        }
}

/// `Uuid::new_v4`, written out by its `Display`: the text of a random UUID. Which one it is, is up
/// to the random numbers of the operating system; the call panics where there are none to be had.
#[verifier::external_body]
pub(crate) fn fresh_id() -> (id: String)
    ensures
        is_random_uuid(id@),
{
    Uuid::new_v4().to_string()
}

/// `Utc::now` with `DateTime::to_rfc3339`: the text of a point in time in UTC. Which one it is, is
/// up to the clock; the call panics where that stands before 1970.
#[verifier::external_body]
pub(crate) fn current_time() -> (timestamp: String)
    ensures
        is_utc_time(timestamp@),
{
    Utc::now().to_rfc3339()
}

} // verus!
