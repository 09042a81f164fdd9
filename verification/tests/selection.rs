use uuid7time::errors::Error;
use uuid7time::json_text::json_escape;
use uuid7time::numeral::u64_to_dec;
use uuid7time::options::{CliOptions, OutputFormat};

fn options_with(format: &str, unix: bool, unix_ms: bool, json: bool) -> CliOptions {
    CliOptions {
        uuids: Vec::new(),
        format: format.to_string(),
        unix,
        unix_ms,
        json,
        quiet: false,
    }
}

#[test]
fn default_format_is_iso() {
    let cli = options_with("iso", false, false, false);
    assert_eq!(OutputFormat::from_cli(&cli), Ok(OutputFormat::Iso));
}

#[test]
fn format_names_select_each_format() {
    assert_eq!(
        OutputFormat::from_cli(&options_with("unix", false, false, false)),
        Ok(OutputFormat::Unix)
    );
    assert_eq!(
        OutputFormat::from_cli(&options_with("unix-ms", false, false, false)),
        Ok(OutputFormat::UnixMs)
    );
    assert_eq!(
        OutputFormat::from_cli(&options_with("json", false, false, false)),
        Ok(OutputFormat::Json)
    );
}

#[test]
fn format_name_is_case_insensitive() {
    assert_eq!(
        OutputFormat::from_cli(&options_with("ISO", false, false, false)),
        Ok(OutputFormat::Iso)
    );
    assert_eq!(
        OutputFormat::from_cli(&options_with("Unix-MS", false, false, false)),
        Ok(OutputFormat::UnixMs)
    );
}

#[test]
fn shorthands_override_the_name() {
    assert_eq!(
        OutputFormat::from_cli(&options_with("iso", true, false, false)),
        Ok(OutputFormat::Unix)
    );
    assert_eq!(
        OutputFormat::from_cli(&options_with("iso", false, true, false)),
        Ok(OutputFormat::UnixMs)
    );
    assert_eq!(
        OutputFormat::from_cli(&options_with("iso", false, false, true)),
        Ok(OutputFormat::Json)
    );
}

#[test]
fn shorthand_precedence_is_seconds_then_millis_then_json() {
    assert_eq!(
        OutputFormat::from_cli(&options_with("iso", true, true, true)),
        Ok(OutputFormat::Unix)
    );
    assert_eq!(
        OutputFormat::from_cli(&options_with("iso", false, true, true)),
        Ok(OutputFormat::UnixMs)
    );
}

#[test]
fn unknown_format_is_rejected_with_its_name() {
    let r = OutputFormat::from_cli(&options_with("bogus", false, false, false));
    match r {
        Err(Error::InvalidFormat(name)) => {
            assert_eq!(name, "bogus");
            assert_eq!(
                Error::InvalidFormat(name).message(),
                "Unknown format: bogus. Use: iso, unix, unix-ms, json"
            );
        }
        other => panic!("expected InvalidFormat, got {:?}", other),
    }
}

#[test]
fn decimal_rendering_round_trips() {
    assert_eq!(u64_to_dec(0), "0");
    assert_eq!(u64_to_dec(7), "7");
    assert_eq!(u64_to_dec(1645559580000), "1645559580000");
    assert_eq!(u64_to_dec(u64::MAX), "18446744073709551615");
    assert_eq!(u64_to_dec(1645559580000).parse::<u64>().unwrap(), 1645559580000);
}

#[test]
fn seconds_are_milliseconds_truncated() {
    assert_eq!(u64_to_dec(1645559580999 / 1000), "1645559580");
    assert_eq!(u64_to_dec(999 / 1000), "0");
}

#[test]
fn json_escaping_matches_json_rules() {
    assert_eq!(json_escape("plain"), "plain");
    assert_eq!(json_escape("a\"b"), "a\\\"b");
    assert_eq!(json_escape("a\\b"), "a\\\\b");
    assert_eq!(json_escape("a\nb\tc\rd"), "a\\nb\\tc\\rd");
    assert_eq!(json_escape("\u{8}\u{c}"), "\\b\\f");
    assert_eq!(json_escape("\u{1}\u{1f}"), "\\u0001\\u001f");
}

#[test]
fn escaped_text_parses_back_to_the_original() {
    let original = "q\"w\\e\nr\tt\u{1}y";
    let quoted = format!("\"{}\"", json_escape(original));
    let parsed: serde_json::Value = serde_json::from_str(&quoted).unwrap();
    assert_eq!(parsed.as_str(), Some(original));
}
