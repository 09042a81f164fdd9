//! Rendering an extracted timestamp in the chosen output format.

use vstd::prelude::*;
use crate::calendar::format_iso_utc;
use crate::calendar::format_rfc3339_offset;
use crate::calendar::is_digit;
use crate::calendar::iso_utc_of;
use crate::errors::Error;
use crate::json_text::json_line;
use crate::json_text::json_line_of;
use crate::numeral::dec_seq_of;
use crate::numeral::u64_to_dec;
use crate::options::OutputFormat;

verus! {

/// The text that a format renders for a processed input: calendar text for
/// `Iso`, decimal whole seconds or milliseconds for the Unix formats, and
/// the JSON record for `Json`.
pub open spec fn formatted_of(fmt: OutputFormat, u: Seq<char>, ms: int) -> Seq<char>
    recommends
        0 <= ms,
        iso_utc_of(ms) is Some,
{
    match fmt {
        OutputFormat::Iso => iso_utc_of(ms).unwrap(),
        OutputFormat::Unix => dec_seq_of((ms / 1000) as nat),
        OutputFormat::UnixMs => dec_seq_of(ms as nat),
        OutputFormat::Json => json_line_of(u, ms),
    }
}

/// Renders one timestamp in the chosen format; `uuid_str` is the trimmed
/// input text, read only by the JSON record. Fails only where the calendar
/// type cannot represent the timestamp, which no 48-bit value reaches. In
/// the ISO format the text always ends with `.`, three fractional-second
/// digits and `Z`.
pub fn format_timestamp(uuid_str: &str, ts_ms: i64, format: &OutputFormat) -> (r: Result<
    String,
    Error,
>)
    requires
        0 <= ts_ms,
    ensures
        (r is Err) == (iso_utc_of(ts_ms as int) is None),
        r matches Err(e) ==> e == Error::TimestampOutOfRange,
        r matches Ok(s) ==> s@ == formatted_of(*format, uuid_str@, ts_ms as int),
        ts_ms < 0x1000000000000 ==> r is Ok,
        *format == OutputFormat::Iso ==> (r matches Ok(s) ==> {
            &&& s@.len() >= 24
            &&& s@[s@.len() - 1] == 'Z'
            &&& s@[s@.len() - 5] == '.'
            &&& is_digit(s@[s@.len() - 4])
            &&& is_digit(s@[s@.len() - 3])
            &&& is_digit(s@[s@.len() - 2])
        }),
{
    match format_iso_utc(ts_ms) {
        None => Err(Error::TimestampOutOfRange),
        Some(iso) => match format {
            OutputFormat::Iso => Ok(iso),
            OutputFormat::Unix => Ok(u64_to_dec((ts_ms as u64) / 1000)),
            OutputFormat::UnixMs => Ok(u64_to_dec(ts_ms as u64)),
            OutputFormat::Json => {
                match format_rfc3339_offset(ts_ms) {
                    Some(rfc) => Ok(json_line(uuid_str, ts_ms, iso.as_str(), rfc.as_str())),
                    None => {
                        proof {
                            assert(false);
                        }
                        Err(Error::TimestampOutOfRange)
                    },
                }
            },
        },
    }
}

} // verus!
