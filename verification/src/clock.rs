//! The current time and fresh identifiers, for the records that carry them.

use vstd::prelude::*;

verus! {

/// A lower-case hexadecimal digit.
pub open spec fn is_lower_hex(c: char) -> bool {
    ('0' <= c && c <= '9') || ('a' <= c && c <= 'f')
}

/// The hyphenated text of a random (version 4) UUID: 36 characters, hyphens
/// at 8, 13, 18 and 23, lower-case hexadecimal digits elsewhere, the version
/// digit `4` at 14 and a variant digit from `8` to `b` at 19.
pub open spec fn uuid_v4_text(s: Seq<char>) -> bool {
    &&& s.len() == 36
    &&& forall|i: int|
        0 <= i < 36 ==> if i == 8 || i == 13 || i == 18 || i == 23 {
            #[trigger] s[i] == '-'
        } else {
            is_lower_hex(s[i])
        }
    &&& s[14] == '4'
    &&& (s[19] == '8' || s[19] == '9' || s[19] == 'a' || s[19] == 'b')
}

/// An RFC 3339 timestamp in UTC as `to_rfc3339` writes it: at least the
/// date and the time to the second, then the offset `+00:00`.
pub open spec fn utc_rfc3339_text(s: Seq<char>) -> bool {
    &&& s.len() >= 25
    &&& s.subrange(s.len() - 6, s.len() as int) == "+00:00"@
}

/// Calls `chrono::Utc::now` and formats the instant with `to_rfc3339`. Which
/// instant it is depends on the clock; what is stated is the form of every
/// outcome: the date and time, then the zero offset `+00:00`.
#[verifier::external_body]
pub(crate) fn now_rfc3339() -> (r: String)
    ensures
        utc_rfc3339_text(r@),
{
    chrono::Utc::now().to_rfc3339()
}

/// Calls `uuid::Uuid::new_v4` and formats the identifier with `to_string`,
/// which writes its hyphenated, lower-case form. The identifier is random;
/// what is stated is the form of every outcome, with its version and
/// variant digits.
#[verifier::external_body]
pub(crate) fn new_uuid() -> (r: String)
    ensures
        uuid_v4_text(r@),
{
    uuid::Uuid::new_v4().to_string()
}

} // verus!
