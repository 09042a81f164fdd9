//! Turning UUID text into its 16 bytes, through the `uuid` crate.

use vstd::prelude::*;

verus! {

/// What `uuid::Uuid::parse_str` yields for given characters: the sixteen
/// decoded bytes where the text is a valid UUID literal, nothing otherwise.
/// The result depends on the characters alone.
pub uninterp spec fn uuid_bytes_of(s: Seq<char>) -> Option<Seq<u8>>;

/// Relies on `uuid::Uuid::parse_str` and `Uuid::into_bytes`: decodes a UUID
/// literal in any syntax the crate accepts (simple, hyphenated, URN, braced)
/// into its sixteen bytes. The error text is the crate's own diagnostic.
#[verifier::external_body]
pub fn parse_uuid(s: &str) -> (r: Result<[u8; 16], String>)
    ensures
        match r {
            Ok(b) => uuid_bytes_of(s@) == Some(b@),
            Err(_) => uuid_bytes_of(s@) is None,
        },
{
    match uuid::Uuid::parse_str(s) {
        Ok(u) => Ok(u.into_bytes()),
        Err(e) => Err(format!("{}", e)),
    }
}

} // verus!
