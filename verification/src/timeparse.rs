//! Timestamp parsing at the engine's boundary.

use vstd::prelude::*;

verus! {

/// The Unix epoch second an RFC 3339 string denotes, or `None` where the
/// string is not a well-formed RFC 3339 timestamp.
pub uninterp spec fn rfc3339_epoch(s: Seq<char>) -> Option<i64>;

/// Relies on chrono's `DateTime::parse_from_rfc3339` and `timestamp`: both
/// are pure functions of the input characters, parsing an RFC 3339 timestamp
/// and giving its Unix epoch second; a parse failure becomes `None`.
#[verifier::external_body]
pub(crate) fn parse_rfc3339_epoch(s: &str) -> (r: Option<i64>)
    ensures
        r == rfc3339_epoch(s@),
{
    match chrono::DateTime::parse_from_rfc3339(s) {
        Ok(dt) => Some(dt.timestamp()),
        Err(_) => None,
    }
}

} // verus!
