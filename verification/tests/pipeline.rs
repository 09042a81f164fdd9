use uuid7time::driver::{collect_inputs, process_uuid, run_batch};
use uuid7time::errors::Error;
use uuid7time::extract::extract_timestamp_ms;
use uuid7time::options::OutputFormat;
use uuid7time::render::format_timestamp;

const SAMPLE: &str = "017f22e2-79b0-7cc3-98c4-dc0c0c07398f";

#[test]
fn extract_sample_bytes() {
    let bytes: [u8; 16] = [
        0x01, 0x7f, 0x22, 0xe2, 0x79, 0xb0, 0x7c, 0xc3, 0x98, 0xc4, 0xdc, 0x0c, 0x0c, 0x07, 0x39,
        0x8f,
    ];
    assert_eq!(extract_timestamp_ms(&bytes), 1645557742000);
}

#[test]
fn extract_ignores_trailing_bytes() {
    let a: [u8; 16] = [
        0x01, 0x7f, 0x22, 0xe2, 0x79, 0xb0, 0x00, 0x00, 0x00, 0x00, 0x00, 0x00, 0x00, 0x00, 0x00,
        0x00,
    ];
    let b: [u8; 16] = [
        0x01, 0x7f, 0x22, 0xe2, 0x79, 0xb0, 0xff, 0xff, 0xff, 0xff, 0xff, 0xff, 0xff, 0xff, 0xff,
        0xff,
    ];
    assert_eq!(extract_timestamp_ms(&a), extract_timestamp_ms(&b));
}

#[test]
fn sample_default_iso() {
    let out = process_uuid(SAMPLE, &OutputFormat::Iso).unwrap();
    assert_eq!(out, "2022-02-22T19:22:22.000Z");
}

#[test]
fn sample_unix_seconds() {
    let out = process_uuid(SAMPLE, &OutputFormat::Unix).unwrap();
    assert_eq!(out, "1645557742");
}

#[test]
fn sample_unix_milliseconds() {
    let out = process_uuid(SAMPLE, &OutputFormat::UnixMs).unwrap();
    assert_eq!(out, "1645557742000");
}

#[test]
fn sample_json_exact_text() {
    let out = process_uuid(SAMPLE, &OutputFormat::Json).unwrap();
    let expected = "{\"uuid\":\"017f22e2-79b0-7cc3-98c4-dc0c0c07398f\",\"timestamp_ms\":1645557742000,\"timestamp_sec\":1645557742,\"iso8601\":\"2022-02-22T19:22:22.000Z\",\"rfc3339\":\"2022-02-22T19:22:22.000+00:00\"}";
    assert_eq!(out, expected);
}

#[test]
fn sample_json_parses_as_json() {
    let out = process_uuid(SAMPLE, &OutputFormat::Json).unwrap();
    let value: serde_json::Value = serde_json::from_str(&out).unwrap();
    assert_eq!(value["uuid"], serde_json::Value::String(SAMPLE.to_string()));
    assert_eq!(value["timestamp_ms"].as_i64(), Some(1645557742000));
    assert_eq!(value["timestamp_sec"].as_i64(), Some(1645557742));
    assert_eq!(value["iso8601"].as_str(), Some("2022-02-22T19:22:22.000Z"));
    assert_eq!(
        value["rfc3339"].as_str(),
        Some("2022-02-22T19:22:22.000+00:00")
    );
}

#[test]
fn iso_and_rfc3339_describe_same_instant() {
    let out = process_uuid(SAMPLE, &OutputFormat::Json).unwrap();
    let value: serde_json::Value = serde_json::from_str(&out).unwrap();
    let iso = value["iso8601"].as_str().unwrap();
    let rfc = value["rfc3339"].as_str().unwrap();
    assert!(iso.ends_with('Z'));
    assert!(!rfc.ends_with('Z'));
    assert!(rfc.ends_with("+00:00"));
    assert_eq!(&iso[..iso.len() - 1], &rfc[..rfc.len() - 6]);
    let dot = iso.len() - 5;
    assert_eq!(&iso[dot..dot + 1], ".");
    assert!(iso[dot + 1..iso.len() - 1]
        .chars()
        .all(|c| c.is_ascii_digit()));
    assert_eq!(iso.len() - 1 - (dot + 1), 3);
}

#[test]
fn whitespace_around_input_is_trimmed() {
    let padded = format!("  {}\t", SAMPLE);
    let out = process_uuid(&padded, &OutputFormat::Unix).unwrap();
    assert_eq!(out, "1645557742");
}

#[test]
fn trimmed_text_appears_in_json_record() {
    let padded = format!(" {} ", SAMPLE);
    let out = process_uuid(&padded, &OutputFormat::Json).unwrap();
    let value: serde_json::Value = serde_json::from_str(&out).unwrap();
    assert_eq!(value["uuid"].as_str(), Some(SAMPLE));
}

#[test]
fn simple_and_braced_forms_parse_alike() {
    let hyphenated = process_uuid(SAMPLE, &OutputFormat::UnixMs).unwrap();
    let simple = process_uuid("017f22e279b07cc398c4dc0c0c07398f", &OutputFormat::UnixMs).unwrap();
    let braced = process_uuid(
        "{017f22e2-79b0-7cc3-98c4-dc0c0c07398f}",
        &OutputFormat::UnixMs,
    )
    .unwrap();
    assert_eq!(simple, hyphenated);
    assert_eq!(braced, hyphenated);
}

#[test]
fn version_field_is_not_checked() {
    let out = process_uuid(
        "550e8400-e29b-41d4-a716-446655440000",
        &OutputFormat::UnixMs,
    )
    .unwrap();
    assert_eq!(out, "93520832553627");
}

#[test]
fn epoch_start_formats_as_nineteen_seventy() {
    let r = format_timestamp("unused", 0, &OutputFormat::Iso).unwrap();
    assert_eq!(r, "1970-01-01T00:00:00.000Z");
}

#[test]
fn malformed_input_reports_invalid_uuid() {
    let r = process_uuid("not-a-uuid", &OutputFormat::Iso);
    match r {
        Err(Error::InvalidUuid(_)) => {}
        other => panic!("expected InvalidUuid, got {:?}", other),
    }
}

#[test]
fn invalid_uuid_message_names_the_failure() {
    let e = process_uuid("not-a-uuid", &OutputFormat::Iso).unwrap_err();
    assert!(e.message().starts_with("Invalid UUID: "));
}

#[test]
fn out_of_range_timestamp_is_reported() {
    let r = format_timestamp(SAMPLE, i64::MAX, &OutputFormat::Unix);
    assert_eq!(r, Err(Error::TimestampOutOfRange));
    assert_eq!(
        Error::TimestampOutOfRange.message(),
        "Timestamp out of range"
    );
}

#[test]
fn batch_continues_past_failures() {
    let inputs = vec![SAMPLE.to_string(), "not-a-uuid".to_string()];
    let outcome = run_batch(&inputs, &OutputFormat::Iso).unwrap();
    assert_eq!(outcome.results.len(), 2);
    assert_eq!(
        outcome.results[0].as_deref().ok(),
        Some("2022-02-22T19:22:22.000Z")
    );
    assert!(matches!(outcome.results[1], Err(Error::InvalidUuid(_))));
    assert!(outcome.had_error);
    assert_eq!(outcome.exit_code, 1);
}

#[test]
fn batch_of_valid_items_exits_zero() {
    let inputs = vec![SAMPLE.to_string(), SAMPLE.to_string()];
    let outcome = run_batch(&inputs, &OutputFormat::UnixMs).unwrap();
    assert!(!outcome.had_error);
    assert_eq!(outcome.exit_code, 0);
    assert!(outcome.results.iter().all(|r| r.is_ok()));
}

#[test]
fn empty_batch_is_no_input() {
    let inputs: Vec<String> = Vec::new();
    let r = run_batch(&inputs, &OutputFormat::Iso);
    match r {
        Err(Error::NoInput) => {}
        other => panic!("expected NoInput, got {:?}", other),
    }
    assert_eq!(
        Error::NoInput.message(),
        "No UUID provided. Use --help for usage information."
    );
}

#[test]
fn positional_arguments_pass_through_unmodified() {
    let args = vec!["  a  ".to_string(), "b".to_string()];
    let lines = vec!["ignored".to_string()];
    let r = collect_inputs(args.clone(), &lines);
    assert_eq!(r, args);
}

#[test]
fn stdin_lines_are_trimmed_and_blanks_dropped() {
    let args: Vec<String> = Vec::new();
    let lines = vec![
        format!("  {}  ", SAMPLE),
        "".to_string(),
        "   \t".to_string(),
        "second".to_string(),
    ];
    let r = collect_inputs(args, &lines);
    assert_eq!(r, vec![SAMPLE.to_string(), "second".to_string()]);
}
