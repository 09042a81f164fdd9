//! The output-format selection and its resolution from command-line options.

use vstd::prelude::*;
use vstd::string::StringExecFns;
use crate::errors::Error;
use crate::text::lower_of;
use crate::text::lowercase;

verus! {

/// The four output representations of an extracted timestamp.
#[derive(Debug, Clone, Copy, PartialEq, Eq, Structural)]
pub enum OutputFormat {
    /// UTC calendar text at millisecond precision with a `Z` suffix.
    Iso,
    /// Whole seconds since the Unix epoch, as decimal text.
    Unix,
    /// Whole milliseconds since the Unix epoch, as decimal text.
    UnixMs,
    /// A JSON record holding the input and every rendering.
    Json,
}

/// The format-related command-line selections, as plain values.
#[derive(Debug)]
pub struct CliOptions {
    /// Positional UUID arguments, in the order given.
    pub uuids: Vec<String>,
    /// The free-text format name; the command line defaults it to `iso`.
    pub format: String,
    /// Shorthand for whole seconds.
    pub unix: bool,
    /// Shorthand for whole milliseconds.
    pub unix_ms: bool,
    /// Shorthand for the JSON record.
    pub json: bool,
    /// Suppress error messages; failures still count toward the exit status.
    pub quiet: bool,
}

/// The format a recognized keyword selects, after lowercasing.
pub open spec fn keyword_format(s: Seq<char>) -> Option<OutputFormat> {
    if s == "iso"@ {
        Some(OutputFormat::Iso)
    } else if s == "unix"@ {
        Some(OutputFormat::Unix)
    } else if s == "unix-ms"@ {
        Some(OutputFormat::UnixMs)
    } else if s == "json"@ {
        Some(OutputFormat::Json)
    } else {
        None
    }
}

/// The single format that a set of selections resolves to: the seconds
/// shorthand first, then milliseconds, then JSON, then the free-text name.
pub open spec fn resolved_format(
    unix: bool,
    unix_ms: bool,
    json: bool,
    lowered_name: Seq<char>,
) -> Option<OutputFormat> {
    if unix {
        Some(OutputFormat::Unix)
    } else if unix_ms {
        Some(OutputFormat::UnixMs)
    } else if json {
        Some(OutputFormat::Json)
    } else {
        keyword_format(lowered_name)
    }
}

impl OutputFormat {
    /// Resolves the command-line selections to exactly one format, or reports
    /// the unrecognized free-text name. The name is matched case-insensitively.
    pub fn from_cli(cli: &CliOptions) -> (r: Result<OutputFormat, Error>)
        ensures
            match r {
                Ok(f) => resolved_format(cli.unix, cli.unix_ms, cli.json, lower_of(cli.format@))
                    == Some(f),
                Err(e) => {
                    &&& resolved_format(cli.unix, cli.unix_ms, cli.json, lower_of(cli.format@))
                        is None
                    &&& e matches Error::InvalidFormat(t) && t@ == cli.format@
                },
            },
    {
        if cli.unix {
            Ok(OutputFormat::Unix)
        } else if cli.unix_ms {
            Ok(OutputFormat::UnixMs)
        } else if cli.json {
            Ok(OutputFormat::Json)
        } else {
            let lowered = lowercase(cli.format.as_str());
            if lowered == String::from_str("iso") {
                Ok(OutputFormat::Iso)
            } else if lowered == String::from_str("unix") {
                Ok(OutputFormat::Unix)
            } else if lowered == String::from_str("unix-ms") {
                Ok(OutputFormat::UnixMs)
            } else if lowered == String::from_str("json") {
                Ok(OutputFormat::Json)
            } else {
                Err(Error::InvalidFormat(cli.format.clone()))
            }
        }
    }
}

} // verus!
