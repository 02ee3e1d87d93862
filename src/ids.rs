//! Identifiers from the uuid crate: parsing a user id and drawing a fresh
//! correlation id for an error.

use vstd::prelude::*;

verus! {

/// The value of a hexadecimal digit of either case.
pub open spec fn hex_value(c: char) -> Option<nat> {
    if '0' <= c && c <= '9' {
        Some((c as nat - '0' as nat) as nat)
    } else if 'a' <= c && c <= 'f' {
        Some((c as nat - 'a' as nat + 10) as nat)
    } else if 'A' <= c && c <= 'F' {
        Some((c as nat - 'A' as nat + 10) as nat)
    } else {
        None
    }
}

/// The number that a string of hexadecimal digits writes, most significant
/// first.
pub open spec fn hex_digits_value(s: Seq<char>) -> Option<nat>
    decreases s.len(),
{
    if s.len() == 0 {
        Some(0)
    } else {
        match (hex_digits_value(s.drop_last()), hex_value(s.last())) {
            (Some(v), Some(d)) => Some(v * 16 + d),
            _ => None,
        }
    }
}

/// The number that 32 hexadecimal digits write, if they are digits.
pub open spec fn hex_number(digits: Seq<char>) -> Option<u128> {
    match hex_digits_value(digits) {
        Some(v) => if v <= u128::MAX {
            Some(v as u128)
        } else {
            None
        },
        None => None,
    }
}

/// The 128-bit value of a UUID in its hyphenated form `8-4-4-4-12`, if `s`
/// is one.
pub open spec fn hyphenated_uuid(s: Seq<char>) -> Option<u128> {
    if s.len() == 36 && s[8] == '-' && s[13] == '-' && s[18] == '-' && s[23] == '-' {
        hex_number(
            s.subrange(0, 8) + s.subrange(9, 13) + s.subrange(14, 18) + s.subrange(19, 23)
                + s.subrange(24, 36),
        )
    } else {
        None
    }
}

/// `urn:uuid:` in any case.
pub open spec fn urn_prefix(p: Seq<char>) -> bool {
    let lower = seq!['u', 'r', 'n', ':', 'u', 'u', 'i', 'd', ':'];
    let upper = seq!['U', 'R', 'N', ':', 'U', 'U', 'I', 'D', ':'];
    p.len() == 9 && forall|i: int| 0 <= i < 9 ==> p[i] == lower[i] || p[i] == upper[i]
}

/// The 128-bit value of a UUID written as `s`: 32 hexadecimal digits, the
/// hyphenated form, the hyphenated form in braces, or the hyphenated form
/// after `urn:uuid:`; digits of either case, most significant first.
pub open spec fn uuid_of_text(s: Seq<char>) -> Option<u128> {
    if s.len() == 32 {
        hex_number(s)
    } else if s.len() == 36 {
        hyphenated_uuid(s)
    } else if s.len() == 38 && s[0] == '{' && s[37] == '}' {
        hyphenated_uuid(s.subrange(1, 37))
    } else if s.len() == 45 && urn_prefix(s.subrange(0, 9)) {
        hyphenated_uuid(s.subrange(9, 45))
    } else {
        None
    }
}

/// Relies on `uuid::Uuid::parse_str`, which reads the simple, hyphenated,
/// braced and URN forms (any text with a character outside ASCII fails), and
/// on `Uuid::as_u128`, which reads the digits most significant first.
#[verifier::external_body]
pub(crate) fn parse_uuid(s: &str) -> (r: Option<u128>)
    ensures
        r == uuid_of_text(s@),
{
    match uuid::Uuid::parse_str(s) {
        Ok(u) => Some(u.as_u128()),
        Err(_) => None,
    }
}

/// The id that a path segment names, if it is a UUID.
pub fn path_id(s: &str) -> (r: Option<u128>)
    ensures
        r == uuid_of_text(s@),
        hyphenated_uuid(s@) is Some ==> r == hyphenated_uuid(s@),
{
    parse_uuid(s)
}

/// Relies on `uuid::Uuid::new_v4` and the `Display` of `Uuid`: a random id
/// in hyphenated lower-case form, which is always 36 characters long.
#[verifier::external_body]
pub(crate) fn fresh_error_id() -> (r: String)
    ensures
        r@.len() == 36,
{
    uuid::Uuid::new_v4().to_string()
}

} // verus!
