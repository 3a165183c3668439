//! Identities: the numbers of broadcasters, broadcasts and chatters, and the
//! identifiers of messages.

use vstd::prelude::*;

verus! {

/// Whether `c` is one of the ten decimal digits.
pub open spec fn is_digit(c: char) -> bool {
    '0' <= c && c <= '9'
}

/// The number that a run of decimal digits writes.
pub open spec fn decimal(digits: Seq<char>) -> int
    decreases digits.len(),
{
    if digits.len() == 0 {
        0
    } else {
        10 * decimal(digits.drop_last()) + (digits.last() as u32 - '0' as u32)
    }
}

/// The number that `text` writes in decimal, with an optional sign in
/// front; `None` unless `text` is a sign at most, then digits and nothing
/// else, at least one of them, and the number fits.
pub open spec fn number_of(text: Seq<char>) -> Option<i64> {
    let signed = text.len() > 0 && (text[0] == '-' || text[0] == '+');
    let digits = if signed {
        text.skip(1)
    } else {
        text
    };
    let size = decimal(digits);
    let value = if text.len() > 0 && text[0] == '-' {
        -size
    } else {
        size
    };
    if digits.len() > 0 && (forall|i: int| 0 <= i < digits.len() ==> is_digit(#[trigger] digits[i]))
        && i64::MIN <= value <= i64::MAX {
        Some(value as i64)
    } else {
        None
    }
}

/// What `uuid::Uuid::parse_str` makes of `text`, as the 128-bit number of
/// the identifier; `None` where it reports an error.
pub uninterp spec fn parsed_uuid(text: Seq<char>) -> Option<u128>;

/// `str::parse::<i64>`: a decimal number with an optional sign; anything
/// else, and a number that does not fit, is an error.
#[verifier::external_body]
fn parse_i64(text: &str) -> (number: Option<i64>)
    ensures
        number == number_of(text@),
{
    text.parse::<i64>().ok()
}

/// Calls `uuid::Uuid::parse_str` and hands the identifier out as a number.
/// The contract only names what the crate returns.
#[verifier::external_body]
fn parse_uuid(text: &str) -> (id: Option<u128>)
    ensures
        id == parsed_uuid(text@),
{
    match uuid::Uuid::parse_str(text) {
        Ok(id) => Some(id.as_u128()),
        Err(_) => None,
    }
}

/// Reads the number of a broadcaster, a broadcast or a chatter.
pub fn id_from_text(text: &str) -> (id: Option<i64>)
    ensures
        id == number_of(text@),
{
    parse_i64(text)
}

/// Reads the identifier of a message.
pub fn message_id_from_text(text: &str) -> (id: Option<u128>)
    ensures
        id == parsed_uuid(text@),
{
    parse_uuid(text)
}

} // verus!
