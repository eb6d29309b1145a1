//! Lobby identifiers: 128-bit UUIDs held as plain `u128` values.
//!
//! Generation, parsing and formatting go through the `uuid` crate.
use vstd::prelude::*;

verus! {

/// The lower-case hexadecimal digit of a nibble.
pub open spec fn hex_digit(n: int) -> char {
    seq!['0', '1', '2', '3', '4', '5', '6', '7', '8', '9', 'a', 'b', 'c', 'd', 'e', 'f'][n]
}

/// The `i`-th nibble of `v`, counted from the most significant one.
pub open spec fn nibble(v: u128, i: int) -> int {
    (v as int / vstd::arithmetic::power2::pow2((4 * (31 - i)) as nat) as int) % 16
}

/// The 32 lower-case hex digits of `v`, most significant first.
pub open spec fn simple_text(v: u128) -> Seq<char> {
    Seq::new(32, |i: int| hex_digit(nibble(v, i)))
}

/// The canonical text of an identifier: its hex digits in groups of
/// 8-4-4-4-12, joined by hyphens.
pub open spec fn hyphenated_text(v: u128) -> Seq<char> {
    let s = simple_text(v);
    s.subrange(0, 8) + seq!['-'] + s.subrange(8, 12) + seq!['-'] + s.subrange(12, 16) + seq!['-']
        + s.subrange(16, 20) + seq!['-'] + s.subrange(20, 32)
}

/// The identifier that `uuid::Uuid::parse_str` reads from a text, if any.
pub uninterp spec fn uuid_parsed(s: Seq<char>) -> Option<u128>;

/// Relies on `uuid::Uuid::new_v4`: a random version-4 identifier.
#[verifier::external_body]
pub(crate) fn new_random_id() -> (r: u128) {
    uuid::Uuid::new_v4().as_u128()
}

/// Relies on `uuid::Uuid::parse_str`, which reads the simple, hyphenated,
/// braced and URN forms of an identifier: 32, 36, 38 or 45 ASCII characters.
/// Any other byte length is refused outright, and a non-ASCII byte is never
/// a digit, hyphen, brace or prefix letter, so a text of any other length in
/// characters reads as nothing.
#[verifier::external_body]
pub(crate) fn parse_id(s: &str) -> (r: Option<u128>)
    ensures
        r == uuid_parsed(s@),
        r is Some ==> s@.len() == 32 || s@.len() == 36 || s@.len() == 38 || s@.len() == 45,
{
    match uuid::Uuid::parse_str(s) {
        Ok(u) => Some(u.as_u128()),
        Err(_) => None,
    }
}

/// Relies on `Display` of `uuid::Uuid` (built with `Uuid::from_u128`, which
/// takes the value big-endian): lower-case hyphenated hex, a form that
/// `Uuid::parse_str` reads back.
#[verifier::external_body]
pub(crate) fn id_to_string(v: u128) -> (r: String)
    ensures
        r@ == hyphenated_text(v),
        uuid_parsed(r@) == Some(v),
{
    uuid::Uuid::from_u128(v).to_string()
}

} // verus!
