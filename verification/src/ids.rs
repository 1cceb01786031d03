//! Record identifiers: 128-bit UUIDs, their text form and their generation.

use vstd::prelude::*;
use vstd::arithmetic::power::pow;

verus! {

/// The sixteen lower-case hexadecimal digits.
pub open spec fn hex_digits() -> Seq<char> {
    seq!['0', '1', '2', '3', '4', '5', '6', '7', '8', '9', 'a', 'b', 'c', 'd', 'e', 'f']
}

/// The `d`-th hexadecimal digit of `u`, counting from the most significant (`d` in `0..32`).
pub open spec fn nibble(u: u128, d: int) -> int {
    (u as int / pow(16, (31 - d) as nat)) % 16
}

/// Where the hyphens stand in the hyphenated text form.
pub open spec fn is_hyphen_position(i: int) -> bool {
    i == 8 || i == 13 || i == 18 || i == 23
}

/// Which hexadecimal digit position `i` of the hyphenated form shows.
pub open spec fn digit_at(i: int) -> int {
    i - (if i > 8 { 1int } else { 0 }) - (if i > 13 { 1int } else { 0 }) - (if i > 18 { 1int } else { 0 })
        - (if i > 23 { 1int } else { 0 })
}

/// The hyphenated lower-case text form of a UUID, `xxxxxxxx-xxxx-xxxx-xxxx-xxxxxxxxxxxx`.
pub open spec fn uuid_text(u: u128) -> Seq<char> {
    Seq::new(36, |i: int| if is_hyphen_position(i) { '-' } else { hex_digits()[nibble(u, digit_at(i))] })
}

/// A version-4 (random) UUID: version nibble 4 and the RFC 4122 variant bits `10`.
pub open spec fn is_random_uuid(u: u128) -> bool {
    &&& (u as int / pow(2, 76)) % 16 == 4
    &&& (u as int / pow(2, 62)) % 4 == 2
}

/// What `uuid::Uuid::parse_str` gives back for a text: the 128-bit value, or
/// the text that the error displays.
pub uninterp spec fn spec_uuid_parse(s: Seq<char>) -> Result<u128, Seq<char>>;

/// Whether a text parses to the identifier `u`.
pub open spec fn parses_to(s: Seq<char>, u: u128) -> bool {
    spec_uuid_parse(s) == Ok::<u128, Seq<char>>(u)
}

/// Calls `uuid::Uuid::new_v4`. The value is random; the source (`v4.rs`) masks
/// in the version nibble 4 and the variant bits `10`, which is all that is claimed.
#[verifier::external_body]
pub(crate) fn random_uuid() -> (u: u128)
    ensures
        is_random_uuid(u),
{
    uuid::Uuid::new_v4().as_u128()
}

/// Calls `Display` of `uuid::Uuid` (through `to_string`) on `Uuid::from_u128(u)`.
/// Claims the hyphenated lower-case form (`fmt.rs`, `format_hyphenated`), and
/// that `parse_str` reads that form back to `u` (`parser.rs`, `parse_hyphenated`).
#[verifier::external_body]
pub(crate) fn uuid_to_text(u: u128) -> (s: String)
    ensures
        s@ == uuid_text(u),
        parses_to(s@, u),
{
    uuid::Uuid::from_u128(u).to_string()
}

/// Calls `uuid::Uuid::parse_str` and keeps the value as a `u128`, or the
/// error as the text it displays. Which texts parse, and the error texts, are
/// left to the name `spec_uuid_parse`.
#[verifier::external_body]
pub(crate) fn uuid_from_text(s: &str) -> (r: Result<u128, String>)
    ensures
        match r {
            Ok(u) => spec_uuid_parse(s@) == Ok::<_, Seq<char>>(u),
            Err(m) => spec_uuid_parse(s@) == Err::<u128, Seq<char>>(m@),
        },
{
    match uuid::Uuid::parse_str(s) {
        Ok(u) => Ok(u.as_u128()),
        Err(e) => Err(e.to_string()),
    }
}

/// Draws a fresh random identifier for a new record.
pub fn new_id() -> (u: u128)
    ensures
        is_random_uuid(u),
{
    random_uuid()
}

/// The hyphenated text under which an identifier is stored.
pub fn id_to_text(u: u128) -> (s: String)
    ensures
        s@ == uuid_text(u),
        parses_to(s@, u),
{
    uuid_to_text(u)
}

/// Reads an identifier back from its stored text; for a text that is no UUID,
/// the text of the parse error.
pub fn id_from_text(s: &str) -> (r: Result<u128, String>)
    ensures
        match r {
            Ok(u) => spec_uuid_parse(s@) == Ok::<_, Seq<char>>(u),
            Err(m) => spec_uuid_parse(s@) == Err::<u128, Seq<char>>(m@),
        },
{
    uuid_from_text(s)
}

} // verus!
