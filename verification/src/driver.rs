//! The per-item pipeline and the batch driver.

use vstd::prelude::*;
use crate::errors::Error;
use crate::extract::extract_timestamp_ms;
use crate::extract::ts_of_bytes;
use crate::options::OutputFormat;
use crate::render::format_timestamp;
use crate::render::formatted_of;
use crate::text::trim;
use crate::text::trim_of;
use crate::uuid_text::parse_uuid;
use crate::uuid_text::uuid_bytes_of;

verus! {

/// What one processed item must yield: the rendering of its timestamp where
/// the trimmed text parses as a UUID, an `InvalidUuid` failure where it does
/// not.
pub open spec fn item_matches(s: Seq<char>, fmt: OutputFormat, r: Result<String, Error>) -> bool {
    match uuid_bytes_of(trim_of(s)) {
        Some(b) => r matches Ok(out) && out@ == formatted_of(fmt, trim_of(s), ts_of_bytes(b)),
        None => r matches Err(e) && e matches Error::InvalidUuid(_),
    }
}

/// Trims one input, parses it as a UUID, extracts the embedded millisecond
/// timestamp and renders it in the chosen format. Succeeds exactly where the
/// trimmed text is a valid UUID literal.
pub fn process_uuid(uuid_str: &str, format: &OutputFormat) -> (r: Result<String, Error>)
    ensures
        item_matches(uuid_str@, *format, r),
        (r is Ok) == (uuid_bytes_of(trim_of(uuid_str@)) is Some),
{
    let t = trim(uuid_str);
    match parse_uuid(t) {
        Err(reason) => Err(Error::InvalidUuid(reason)),
        Ok(bytes) => {
            let ts = extract_timestamp_ms(&bytes);
            match format_timestamp(t, ts, format) {
                Ok(s) => Ok(s),
                Err(_) => {
                    proof {
                        assert(false);
                    }
                    Err(Error::TimestampOutOfRange)
                },
            }
        },
    }
}

/// The stdin lines that are kept: each line trimmed, blank lines dropped,
/// order preserved.
pub open spec fn kept_lines(lines: Seq<Seq<char>>) -> Seq<Seq<char>>
    decreases lines.len(),
{
    if lines.len() == 0 {
        Seq::empty()
    } else {
        let rest = kept_lines(lines.drop_last());
        if trim_of(lines.last()).len() > 0 {
            rest.push(trim_of(lines.last()))
        } else {
            rest
        }
    }
}

/// Chooses the candidate inputs: the positional arguments exactly as given
/// where there are any, otherwise the trimmed nonblank stdin lines in order.
pub fn collect_inputs(args: Vec<String>, stdin_lines: &Vec<String>) -> (r: Vec<String>)
    ensures
        args.len() > 0 ==> r.deep_view() == args.deep_view(),
        args.len() == 0 ==> r.deep_view() == kept_lines(stdin_lines.deep_view()),
{
    if args.len() > 0 {
        args
    } else {
        let mut out: Vec<String> = Vec::new();
        let mut i: usize = 0;
        while i < stdin_lines.len()
            invariant
                i <= stdin_lines.len(),
                out.deep_view() == kept_lines(stdin_lines.deep_view().take(i as int)),
            decreases stdin_lines.len() - i,
        {
            let t = trim(stdin_lines[i].as_str());
            if !t.is_empty() {
                out.push(t.to_owned());
            }
            proof {
                let lines = stdin_lines.deep_view();
                assert(lines.take(i as int + 1).drop_last() =~= lines.take(i as int));
                assert(lines.take(i as int + 1).last() == lines[i as int]);
                assert(out.deep_view() =~= kept_lines(lines.take(i as int + 1)));
            }
            i = i + 1;
        }
        proof {
            assert(stdin_lines.deep_view().take(stdin_lines.len() as int)
                =~= stdin_lines.deep_view());
        }
        out
    }
}

/// The outcome of one batch run.
#[derive(Debug)]
pub struct BatchOutcome {
    /// One result per input, in input order.
    pub results: Vec<Result<String, Error>>,
    /// Whether at least one item failed.
    pub had_error: bool,
    /// The exit status of the run: zero only where every item succeeded.
    pub exit_code: i32,
}

/// Runs the whole batch: processes every candidate in order, one failed item
/// never stopping the rest. With no candidates at all the run is refused
/// with `NoInput` before any item is touched.
pub fn run_batch(inputs: &Vec<String>, format: &OutputFormat) -> (r: Result<BatchOutcome, Error>)
    ensures
        (r is Err) == (inputs.len() == 0),
        r matches Err(e) ==> e == Error::NoInput,
        r matches Ok(o) ==> {
            &&& o.results.len() == inputs.len()
            &&& forall|i: int|
                0 <= i < inputs.len() ==> item_matches(
                    inputs@[i]@,
                    *format,
                    #[trigger] o.results@[i],
                )
            &&& o.had_error == exists|i: int|
                0 <= i < inputs.len() && (#[trigger] o.results@[i]) is Err
            &&& o.exit_code == if o.had_error {
                1int
            } else {
                0int
            }
        },
{
    if inputs.len() == 0 {
        return Err(Error::NoInput);
    }
    let mut results: Vec<Result<String, Error>> = Vec::new();
    let mut had_error = false;
    let mut i: usize = 0;
    while i < inputs.len()
        invariant
            i <= inputs.len(),
            results.len() == i,
            forall|j: int|
                0 <= j < i ==> item_matches(inputs@[j]@, *format, #[trigger] results@[j]),
            had_error == exists|j: int| 0 <= j < i && (#[trigger] results@[j]) is Err,
        decreases inputs.len() - i,
    {
        let item = process_uuid(inputs[i].as_str(), format);
        let ghost prev = results@;
        let ghost before = had_error;
        if item.is_err() {
            had_error = true;
        }
        results.push(item);
        proof {
            if before {
                let j0 = choose|j: int| 0 <= j < i && (#[trigger] prev[j]) is Err;
                assert(results@[j0] is Err);
            } else if had_error {
                assert(results@[i as int] is Err);
            } else {
                assert(forall|j: int| 0 <= j < i + 1 ==> !((#[trigger] results@[j]) is Err)) by {
                    assert(forall|j: int| 0 <= j < i ==> results@[j] == prev[j]);
                }
            }
        }
        i = i + 1;
    }
    let exit_code: i32 = if had_error {
        1
    } else {
        0
    };
    Ok(BatchOutcome { results, had_error, exit_code })
}

} // verus!
