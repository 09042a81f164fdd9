//! Calendar text for millisecond timestamps, through the `chrono` crate.

use vstd::prelude::*;

verus! {

/// What `chrono` renders for a given millisecond timestamp: the RFC 3339 /
/// ISO 8601 UTC text at millisecond precision with a `Z` suffix, where the
/// timestamp lies in chrono's calendar range, and nothing otherwise. The
/// result depends on the integer alone.
pub uninterp spec fn iso_utc_of(ms: int) -> Option<Seq<char>>;

/// A decimal digit character.
pub open spec fn is_digit(c: char) -> bool {
    48 <= c as u32 <= 57
}

/// The same instant rendered with an explicit `+00:00` offset in place of
/// the `Z` shorthand: the same text up to the final character.
pub open spec fn rfc3339_utc_of(ms: int) -> Seq<char>
    recommends
        iso_utc_of(ms) is Some,
{
    iso_utc_of(ms).unwrap().drop_last() + "+00:00"@
}

/// Relies on `chrono::TimeZone::timestamp_millis_opt` on `Utc` and
/// `chrono::DateTime::to_rfc3339_opts(SecondsFormat::Millis, true)`: a
/// timestamp within chrono's calendar range renders as UTC text that ends
/// with `.`, three fractional-second digits and `Z`; conversion fails only
/// out of that range, and all of [0, 2^48) lies within it.
#[verifier::external_body]
pub fn format_iso_utc(ms: i64) -> (r: Option<String>)
    ensures
        match r {
            Some(s) => {
                &&& iso_utc_of(ms as int) == Some(s@)
                &&& s@.len() >= 24
                &&& s@[s@.len() - 1] == 'Z'
                &&& s@[s@.len() - 5] == '.'
                &&& is_digit(s@[s@.len() - 4])
                &&& is_digit(s@[s@.len() - 3])
                &&& is_digit(s@[s@.len() - 2])
            },
            None => iso_utc_of(ms as int) is None,
        },
        0 <= ms < 0x1000000000000 ==> r is Some,
{
    match chrono::TimeZone::timestamp_millis_opt(&chrono::Utc, ms).single() {
        Some(dt) => Some(dt.to_rfc3339_opts(chrono::SecondsFormat::Millis, true)),
        None => None,
    }
}

/// Relies on the same two `chrono` functions with `use_z` false: the text is
/// identical to the `Z` rendering except that the final `Z` is written as
/// `+00:00`.
#[verifier::external_body]
pub fn format_rfc3339_offset(ms: i64) -> (r: Option<String>)
    ensures
        (r is Some) == (iso_utc_of(ms as int) is Some),
        r matches Some(s) ==> s@ == rfc3339_utc_of(ms as int),
{
    match chrono::TimeZone::timestamp_millis_opt(&chrono::Utc, ms).single() {
        Some(dt) => Some(dt.to_rfc3339_opts(chrono::SecondsFormat::Millis, false)),
        None => None,
    }
}

/// The offset rendering never ends with `Z`: its final six characters are
/// `+00:00`, and the text before them is exactly the `Z` rendering without
/// its final character, so both renderings name the same instant.
pub proof fn lemma_rfc3339_offset_shape(ms: int)
    requires
        iso_utc_of(ms) is Some,
    ensures
        rfc3339_utc_of(ms).last() == '0',
        rfc3339_utc_of(ms).last() != 'Z',
        rfc3339_utc_of(ms).skip(rfc3339_utc_of(ms).len() - 6) =~= "+00:00"@,
        rfc3339_utc_of(ms).take(rfc3339_utc_of(ms).len() - 6) =~= iso_utc_of(
            ms,
        ).unwrap().drop_last(),
{
    reveal_strlit("+00:00");
}

} // verus!
