//! Tests for version, extension and key classification, line splitting,
//! hex decoding, and date parsing.

use dsmr_decoder::date::parse_datetime;
use dsmr_decoder::decode::process_lines;
use dsmr_decoder::error::DecodeError;
use dsmr_decoder::hexmsg::hex_string;
use dsmr_decoder::keys::classify_key;
use dsmr_decoder::keys::telegram_ver;
use dsmr_decoder::keys::version_ext;
use dsmr_decoder::keys::version_key;
use dsmr_decoder::keys::Extensions;
use dsmr_decoder::keys::Keys;
use dsmr_decoder::keys::Versions;

#[test]
fn test_telegram_ver_pass() {
    let input = "12";
    let result = telegram_ver(input);
    assert_eq!(result, Ok(Versions::V12));
}

#[test]
fn test_telegram_ver_fail() {
    let input = "11";
    let result = telegram_ver(input);
    assert_ne!(result, Ok(Versions::V12));
}

#[test]
fn test_telegram_ver_v10() {
    assert_eq!(telegram_ver("10"), Ok(Versions::V10));
    assert_eq!(
        telegram_ver("13"),
        Err(DecodeError::Version("13".to_string()))
    );
}

#[test]
fn test_version_extension_pass() {
    let input = "gr";
    let result = version_ext(input);
    assert_eq!(result, Ok(Extensions::GasRecursive));
}

#[test]
fn test_version_extension_2() {
    let input = "ab";
    let result = version_ext(input);
    assert_ne!(result, Ok(Extensions::Recursive));
}

#[test]
fn test_version_extension_all_codes() {
    assert_eq!(version_ext("g\r"), Ok(Extensions::Gas));
    assert_eq!(version_ext("r\r"), Ok(Extensions::Recursive));
    assert_eq!(version_ext("gr"), Ok(Extensions::GasRecursive));
    assert!(version_ext("rg").is_err());
    assert!(version_ext("").is_err());
}

#[test]
fn test_process_lines_pass1() {
    let line = "1.2.0#(END)";
    let result = process_lines(line);
    assert_eq!(result, ("1.2.0".to_string(), "END".to_string()));
}

#[test]
fn test_process_lines_fail1() {
    let line = "1.2.0#(END)";
    let result = process_lines(line);
    assert_ne!(result, ("1.2.".to_string(), "ND".to_string()));
}

#[test]
fn test_process_lines_pass2() {
    let line = " ";
    let result = process_lines(line);
    assert_eq!(result, ("LineBreak".to_string(), "".to_string()));
}

#[test]
fn test_process_lines_fail2() {
    let line = " ";
    let result = process_lines(line);
    assert_ne!(result, ("Line Space".to_string(), "".to_string()));
}

#[test]
fn test_process_lines_two_hashes() {
    // Two separators make the line a break sentinel, not a split.
    let result = process_lines("1.1.0#(a)#(b)");
    assert_eq!(result, ("LineBreak".to_string(), "".to_string()));
}

#[test]
fn test_version_key_pass() {
    let line = "1.1.0";
    let result = version_key(line);
    assert_eq!(result, Ok(Keys::Start));
}

#[test]
fn test_version_key_fail() {
    let line = "1.1.1";
    let result = version_key(line);
    assert_ne!(result, Ok(Keys::Start));
}

#[test]
fn test_version_key_families() {
    assert_eq!(version_key("3.1.7"), Ok(Keys::EventLogSeverity));
    assert_eq!(version_key("3.2.12"), Ok(Keys::EventLogMessage));
    assert_eq!(version_key("3.3.1"), Ok(Keys::EventLogDate));
    assert_eq!(version_key("7.4.2"), Ok(Keys::EnergyProduction));
    assert_eq!(
        version_key("9.9"),
        Err(DecodeError::Classification("9.9".to_string()))
    );
}

#[test]
fn test_classify_key_version_dependent_markers() {
    // The older version uses two-level start and end ids; the newer one
    // uses child-aware three-level ids.
    assert_eq!(classify_key("1.1", Versions::V10), Ok(Keys::Start));
    assert_eq!(classify_key("1.2", Versions::V10), Ok(Keys::End));
    assert!(classify_key("1.1.0", Versions::V10).is_err());
    assert!(classify_key("1.1.1", Versions::V10).is_err());
    assert!(classify_key("1.1", Versions::V12).is_err());
    assert_eq!(classify_key("2.1", Versions::V10), Ok(Keys::Date));
}

#[test]
fn test_hex_string_pass() {
    let line = "506f776572204661696c757265";
    let result = hex_string(line);
    assert_eq!(result, "Power Failure");
}

#[test]
fn test_hex_string_fail() {
    let line = "506f776572204661696c757265";
    let result = hex_string(line);
    assert_ne!(result, "Power Failure.");
}

#[test]
fn test_hex_string_leniency() {
    // An odd trailing character is dropped silently.
    assert_eq!(hex_string("4f4"), "O");
    // A malformed pair is dropped, later pairs still decode.
    assert_eq!(hex_string("zz41"), "A");
    // Upper-case digits decode too.
    assert_eq!(hex_string("4A"), "J");
    assert_eq!(hex_string(""), "");
}

#[test]
fn test_parse_datetime_jan_pass() {
    let date_message = "22-Jan-22 12:34:56 (S)";
    let result = parse_datetime(date_message);
    assert_eq!(result, Some((2022, 1, 22, 12, 34, 56, true)));
}

#[test]
fn test_parse_datetime_apr_pass() {
    let date_message = "22-Apr-22 12:34:56 (S)";
    let result = parse_datetime(date_message);
    assert_eq!(result, Some((2022, 4, 22, 12, 34, 56, true)));
}

#[test]
fn test_parse_datetime_fail() {
    let date_message = "22-Jan-22 12:34:56 (S)";
    let result = parse_datetime(date_message);
    assert_ne!(result, Some((22, 1, 22, 12, 34, 56, true)));
}

#[test]
fn test_parse_datetime() {
    // Test case with a valid input
    let valid_date = "2023-11-15 12:34:56 (S)";
    assert_ne!(parse_datetime(valid_date), Some((2023, 11, 15, 12, 34, 56, true)));
}

#[test]
fn test_parse_datetime_winter_flag() {
    assert_eq!(
        parse_datetime("22-Dec-31 23:59:00 (W)"),
        Some((2022, 12, 31, 23, 59, 0, false))
    );
}

#[test]
fn test_parse_datetime_malformed() {
    assert_eq!(parse_datetime("22-Jan-22 12:34 (S)"), None);
    assert_eq!(parse_datetime("22-Jan 12:34:56 (S)"), None);
    assert_eq!(parse_datetime("22-Foo-22 12:34:56 (S)"), None);
    assert_eq!(parse_datetime("22-Jan-22 12:34:56"), None);
    assert_eq!(parse_datetime(""), None);
}
