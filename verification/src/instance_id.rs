//! Network instance ids: UUIDs, held as their 128-bit value.

use vstd::arithmetic::power::pow;
use vstd::prelude::*;

verus! {

/// What parsing `text` as a UUID gives: its 128-bit value, or the text of the error.
pub uninterp spec fn parsed_uuid(text: Seq<char>) -> Result<u128, Seq<char>>;

/// The lower-case hexadecimal digit for `n`, which is below sixteen.
pub open spec fn hex_digit(n: int) -> char {
    if n < 10 {
        ('0' as int + n) as char
    } else {
        ('a' as int + (n - 10)) as char
    }
}

/// How many hexadecimal digits stand before position `i` of a hyphenated UUID.
pub open spec fn digits_before(i: int) -> int {
    i - if i > 23 {
        4int
    } else if i > 18 {
        3
    } else if i > 13 {
        2
    } else if i > 8 {
        1
    } else {
        0
    }
}

/// The hyphenated text of the UUID with value `id`: thirty-two lower-case
/// hexadecimal digits, most significant first, in groups of 8, 4, 4, 4 and 12.
pub open spec fn hyphenated(id: u128) -> Seq<char> {
    Seq::new(
        36,
        |i: int|
            if i == 8 || i == 13 || i == 18 || i == 23 {
                '-'
            } else {
                hex_digit((id as int / pow(16, (31 - digits_before(i)) as nat)) % 16)
            },
    )
}

/// A parse result, with the error's text as a sequence of characters.
pub open spec fn parse_view(r: Result<u128, String>) -> Result<u128, Seq<char>> {
    match r {
        Ok(id) => Ok(id),
        Err(e) => Err(e@),
    }
}

/// Parses an instance id with `uuid::Uuid::parse_str`. The result is a function
/// of the text: the value of the UUID, or the error as it displays itself.
#[verifier::external_body]
pub(crate) fn parse_uuid(text: &str) -> (r: Result<u128, String>)
    ensures
        parse_view(r) == parsed_uuid(text@),
{
    match uuid::Uuid::parse_str(text) {
        Ok(id) => Ok(id.as_u128()),
        Err(e) => Err(e.to_string()),
    }
}

/// The text of an instance id, as `uuid::Uuid` displays itself: hyphenated and in
/// lower case. Parsing that text gives the id back.
#[verifier::external_body]
pub(crate) fn uuid_text(id: u128) -> (r: String)
    ensures
        r@ == hyphenated(id),
        parsed_uuid(r@) is Ok && parsed_uuid(r@)->Ok_0 == id,
{
    uuid::Uuid::from_u128(id).to_string()
}

} // verus!
