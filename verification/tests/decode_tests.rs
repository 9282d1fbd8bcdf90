//! End-to-end decoder tests: whole telegrams, the cross-field validator,
//! error paths, and decoder determinism.

use dsmr_decoder::decode::decode;
use dsmr_decoder::decode::parse;
use dsmr_decoder::decode::parse_dates_and_timestamps;
use dsmr_decoder::error::DecodeError;
use dsmr_decoder::error::InvariantKind;
use dsmr_decoder::keys::Extensions;
use dsmr_decoder::keys::Versions;
use dsmr_decoder::record::Telegram;
use dsmr_decoder::validate::validate;
use tudelft_dsmr_output_generator::date_to_timestamp;

fn sample_telegram() -> String {
    let lines = [
        "/v12++gr",
        "1.1.0#(START)",
        "2.1#(22-Jan-22 12:34:56 (S))",
        "3.1.1#(2)",
        "3.2.1#(506f776572204661696c757265)",
        "3.3.1#(22-Jan-22 10:00:00 (S))",
        "4.1#(E)",
        "7.1.1#(230.1*V)",
        "7.1.2#(231*V)",
        "7.1.3#(229.9*V)",
        "7.2.1#(1.5*A)",
        "7.2.2#(1.25*A)",
        "7.2.3#(1*A)",
        "7.3.1#(0.5*kW)",
        "7.3.2#(0.25*kW)",
        "7.3.3#(0.75*kW)",
        "7.4.1#(100.5*kWh)",
        "7.4.2#(50.25*kWh)",
        "6.1#(1234*L)",
        "5.1#(G5)",
        "5.2#(3.5*m3)",
        "1.2.0#(END)",
    ];
    lines.join("\n")
}

#[test]
fn test_parse_sample_telegram() {
    let input = sample_telegram();
    let t = parse(&input).expect("sample telegram decodes");
    assert_eq!(t.telegram_version, Some(Versions::V12));
    assert_eq!(t.telegram_extensions, Some(Extensions::GasRecursive));
    assert_eq!(t.telegram_start, vec!["START".to_string()]);
    assert_eq!(t.telegram_end, vec!["END".to_string()]);
    assert_eq!(t.telegram_date, vec!["22-Jan-22 12:34:56 (S".to_string()]);
    assert_eq!(t.event_log_severity, vec!["2".to_string()]);
    assert_eq!(t.event_log_message, vec!["Power Failure".to_string()]);
    assert_eq!(t.voltage_p1, vec![230_100_000i64]);
    assert_eq!(t.voltage_p2, vec![231_000_000i64]);
    assert_eq!(t.voltage_p3, vec![229_900_000i64]);
    assert_eq!(t.current_p1, vec![1_500_000i64]);
    assert_eq!(t.power_p3, vec![750_000i64]);
    assert_eq!(t.energy_consumption, vec![100_500_000i64]);
    assert_eq!(t.energy_production, vec![50_250_000i64]);
    assert_eq!(t.water_consumption, vec![1234u64]);
    // 3.5 cubic metres under model G5 scale to 35.
    assert_eq!(t.gas_consumption, vec![35_000_000i64]);
    // The timestamp is whatever the calendar collaborator computes; the
    // decoder must agree with a direct call on the parsed components.
    let expected_ts = date_to_timestamp(2022, 1, 22, 12, 34, 56, true).unwrap();
    assert_eq!(t.time_stamp, vec![expected_ts]);
}

#[test]
fn test_decode_validates_sample() {
    let input = sample_telegram();
    let t = decode(&input).expect("sample telegram decodes and validates");
    assert_eq!(t.gas_consumption, vec![35_000_000i64]);
}

#[test]
fn test_decode_idempotent() {
    // Running the decoder twice over the same text yields identical
    // records.
    let input = sample_telegram();
    let first = decode(&input);
    let second = decode(&input);
    assert_eq!(first, second);
    assert!(first.is_ok());
}

#[test]
fn test_parse_child_telegram_merges_gas() {
    let lines = [
        "/v12++gr",
        "1.1.0#(START)",
        "2.1#(22-Jan-22 12:34:56 (S))",
        "5.1#(G4)",
        "5.2#(1*m3)",
        "1.1.1#(CHILD)",
        "2.1#(22-Jan-22 13:00:00 (S))",
        "5.1#(G6)",
        "5.2#(2*m3)",
        "1.2.1#(ENDCHILD)",
        "1.2.0#(END)",
    ];
    let input = lines.join("\n");
    let t = parse(&input).expect("child telegram decodes");
    // Root gas first, then the child's, appended by the merge.
    assert_eq!(t.gas_consumption, vec![1_000_000i64, 200_000_000i64]);
    assert_eq!(t.child_telegram1.gas_consumption, vec![200_000_000i64]);
    assert_eq!(t.child_telegram1.telegram_start, vec!["CHILD".to_string()]);
    assert_eq!(t.child_telegram1.telegram_end, vec!["ENDCHILD".to_string()]);
    // The child's date went to the child, not the root.
    assert_eq!(t.telegram_date, vec!["22-Jan-22 12:34:56 (S".to_string()]);
    assert_eq!(
        t.child_telegram1.telegram_date,
        vec!["22-Jan-22 13:00:00 (S".to_string()]
    );
}

#[test]
fn test_decode_v10_telegram() {
    // The older version's start and end markers are two-level ids, and
    // the extension code at positions 6 and 7 here is the gas code with
    // its carriage return.
    let input = "/v10++g\r\n1.1#(START)\n2.1#(22-Jan-22 12:34:56 (S))\n1.2#(END)";
    let t = decode(input).expect("older-version telegram decodes");
    assert_eq!(t.telegram_version, Some(Versions::V10));
    assert_eq!(t.telegram_extensions, Some(Extensions::Gas));
    assert_eq!(t.telegram_start, vec!["START".to_string()]);
    assert_eq!(t.telegram_end, vec!["END".to_string()]);
}

#[test]
fn test_parse_version_error() {
    assert_eq!(
        parse("/v13++gr\n1.1.0#(S)"),
        Err(DecodeError::Version("13".to_string()))
    );
    assert_eq!(parse("x"), Err(DecodeError::Version("".to_string())));
}

#[test]
fn test_parse_classification_error() {
    let input = "/v12++gr\n9.9.9#(boom)";
    assert_eq!(
        parse(input),
        Err(DecodeError::Classification("9.9.9".to_string()))
    );
}

#[test]
fn test_parse_numeric_error() {
    let input = "/v12++gr\n6.1#(abc*L)";
    assert_eq!(parse(input), Err(DecodeError::NumericParse("abc*L".to_string())));
}

#[test]
fn test_parse_date_error() {
    let input = "/v12++gr\n2.1#(not a date at all)";
    assert_eq!(
        parse(input),
        Err(DecodeError::DateParse("not a date at all".to_string()))
    );
}

#[test]
fn test_parse_missing_gas_model() {
    let input = "/v12++gr\n5.2#(1*m3)";
    assert_eq!(
        parse(input),
        Err(DecodeError::MissingGasModel("1*m3".to_string()))
    );
}

#[test]
fn test_parse_unknown_gas_model() {
    let input = "/v12++gr\n5.1#(G9)\n5.2#(1*m3)";
    assert_eq!(
        parse(input),
        Err(DecodeError::UnknownGasModel("G9".to_string()))
    );
}

#[test]
fn test_parse_invalid_extension_is_not_fatal() {
    let input = "/v12++xx\n2.1#(22-Jan-22 12:34:56 (S))";
    let t = parse(input).expect("an unknown extension code is tolerated");
    assert_eq!(t.telegram_extensions, None);
}

#[test]
fn test_validator_phase_mismatch_fails() {
    let mut t = Telegram::default();
    t.telegram_date.push("22-Jan-22 12:34:56 (S)".to_string());
    t.voltage_p1.push(230_000_000);
    // Phase 2 and 3 are missing the sample: the validator must reject.
    assert_eq!(
        validate(&t),
        Err(DecodeError::Invariant(InvariantKind::VoltagePhases))
    );
}

#[test]
fn test_validator_aligned_record_passes() {
    let mut t = Telegram::default();
    t.telegram_date.push("22-Jan-22 12:34:56 (S)".to_string());
    t.voltage_p1.push(230_000_000);
    t.voltage_p2.push(231_000_000);
    t.voltage_p3.push(229_000_000);
    t.current_p1.push(1_000_000);
    t.current_p2.push(1_000_000);
    t.current_p3.push(1_000_000);
    t.power_p1.push(500_000);
    t.power_p2.push(500_000);
    t.power_p3.push(500_000);
    assert!(validate(&t).is_ok());
}

#[test]
fn test_validator_event_log_alignment() {
    let mut t = Telegram::default();
    t.telegram_date.push("22-Jan-22 12:34:56 (S)".to_string());
    t.event_log_severity.push("2".to_string());
    assert_eq!(
        validate(&t),
        Err(DecodeError::Invariant(InvariantKind::EventLogLengths))
    );
}

#[test]
fn test_validator_requires_a_date() {
    let t = Telegram::default();
    assert_eq!(
        validate(&t),
        Err(DecodeError::Invariant(InvariantKind::NoDates))
    );
}

#[test]
fn test_validator_declared_water_missing() {
    let mut t = Telegram::default();
    t.telegram_date.push("22-Jan-22 12:34:56 (S)".to_string());
    t.information_type.push("W".to_string());
    assert_eq!(
        validate(&t),
        Err(DecodeError::Invariant(InvariantKind::InfoWaterMissing))
    );
    t.water_consumption.push(10);
    assert!(validate(&t).is_ok());
}

#[test]
fn test_decode_rejects_invalid_record() {
    // A telegram with only one voltage phase sample decodes but fails the
    // cross-field validator.
    let lines = [
        "/v12++gr",
        "2.1#(22-Jan-22 12:34:56 (S))",
        "7.1.1#(230.1*V)",
    ];
    let input = lines.join("\n");
    assert!(parse(&input).is_ok());
    assert_eq!(
        decode(&input),
        Err(DecodeError::Invariant(InvariantKind::VoltagePhases))
    );
}

#[test]
fn test_parse_dates_and_timestamps_direct() {
    let mut t = Telegram::default();
    t.telegram_date.push("22-Jan-22 12:34:56 (S".to_string());
    assert!(parse_dates_and_timestamps(&mut t).is_ok());
    let expected_ts = date_to_timestamp(2022, 1, 22, 12, 34, 56, true).unwrap();
    assert_eq!(t.time_stamp, vec![expected_ts]);

    let mut bad = Telegram::default();
    bad.telegram_date.push("garbage".to_string());
    assert_eq!(
        parse_dates_and_timestamps(&mut bad),
        Err(DecodeError::DateParse("garbage".to_string()))
    );
    assert!(bad.time_stamp.is_empty());
}

#[test]
fn test_parse_line_break_lines_skipped() {
    let input = "/v12++gr\n\n   \n2.1#(22-Jan-22 12:34:56 (S))";
    let t = parse(input).expect("blank lines are skipped");
    assert_eq!(t.telegram_date.len(), 1);
}
