//! Number formatting, hexadecimal parsing, escaping, and the small
//! configuration parsers.

use cli_batteries::config::{
    enrichment_from_str, parse_key_val, select_enrichment, verbosity_levels, ConfigError,
    LogFormat,
};
use cli_batteries::fields::debug_quote;
use cli_batteries::text::{
    hex16_u64, hex32_u128, i64_dec, pad_left, parse_hex_u64, u128_dec, u64_dec, IntParseError,
};
use cli_batteries::EnrichmentMode;
use cli_batteries::Level;

#[test]
fn decimal_rendering() {
    assert_eq!(u64_dec(0), "0");
    assert_eq!(u64_dec(42), "42");
    assert_eq!(u64_dec(18446744073709551615), "18446744073709551615");
    assert_eq!(u128_dec(340282366920938463463374607431768211455), "340282366920938463463374607431768211455");
    assert_eq!(i64_dec(0), "0");
    assert_eq!(i64_dec(-5), "-5");
    assert_eq!(i64_dec(i64::MIN), "-9223372036854775808");
    assert_eq!(i64_dec(i64::MAX), "9223372036854775807");
}

#[test]
fn hexadecimal_rendering() {
    assert_eq!(hex16_u64(2), "0000000000000002");
    assert_eq!(hex16_u64(0xdeadbeef), "00000000deadbeef");
    assert_eq!(hex32_u128(1), "00000000000000000000000000000001");
    assert_eq!(
        hex32_u128(0x0123456789abcdef0123456789abcdef),
        "0123456789abcdef0123456789abcdef"
    );
}

#[test]
fn left_padding() {
    assert_eq!(pad_left("12", ' ', 4), "  12");
    assert_eq!(pad_left("345678", '0', 6), "345678");
    assert_eq!(pad_left("7", '0', 6), "000007");
    assert_eq!(pad_left("12345", ' ', 4), "12345");
}

#[test]
fn hex_parsing_accepts_the_radix_16_grammar() {
    assert_eq!(parse_hex_u64("0x1f"), Ok(31));
    assert_eq!(parse_hex_u64("1F"), Ok(31));
    assert_eq!(parse_hex_u64("+a"), Ok(10));
    assert_eq!(parse_hex_u64("0xffffffffffffffff"), Ok(u64::MAX));
    assert_eq!(parse_hex_u64("0"), Ok(0));
}

#[test]
fn hex_parsing_rejects_like_the_standard_parser() {
    assert_eq!(parse_hex_u64(""), Err(IntParseError::Empty));
    assert_eq!(parse_hex_u64("0x"), Err(IntParseError::Empty));
    assert_eq!(parse_hex_u64("+"), Err(IntParseError::InvalidDigit));
    assert_eq!(parse_hex_u64("zz"), Err(IntParseError::InvalidDigit));
    assert_eq!(parse_hex_u64("-1"), Err(IntParseError::InvalidDigit));
    assert_eq!(parse_hex_u64("10000000000000000"), Err(IntParseError::PosOverflow));
    // The standard parser agrees on each of these.
    for input in ["1f", "1F", "+a", "", "+", "zz", "-1", "10000000000000000"] {
        assert_eq!(parse_hex_u64(input).ok(), u64::from_str_radix(input, 16).ok());
    }
}

#[test]
fn debug_quoting_escapes_specials() {
    assert_eq!(debug_quote("plain"), "\"plain\"");
    assert_eq!(debug_quote("a\"b\\c\nd"), "\"a\\\"b\\\\c\\nd\"");
    assert_eq!(debug_quote(""), "\"\"");
}

#[test]
fn severity_letters_names_numbers() {
    assert_eq!(Level::Trace.letter(), "T");
    assert_eq!(Level::Debug.letter(), "D");
    assert_eq!(Level::Info.letter(), "I");
    assert_eq!(Level::Warn.letter(), "W");
    assert_eq!(Level::Error.letter(), "E");
    assert_eq!(Level::Info.name(), "INFO");
    assert_eq!(Level::Trace.severity_number(), 1);
    assert_eq!(Level::Debug.severity_number(), 5);
    assert_eq!(Level::Info.severity_number(), 9);
    assert_eq!(Level::Warn.severity_number(), 13);
    assert_eq!(Level::Error.severity_number(), 17);
    assert!(Level::Trace.le(Level::Error));
    assert!(!Level::Error.le(Level::Warn));
}

#[test]
fn log_format_names() {
    assert_eq!(LogFormat::from_str("tiny"), Some(LogFormat::Tiny));
    assert_eq!(LogFormat::from_str("compact"), Some(LogFormat::Compact));
    assert_eq!(LogFormat::from_str("pretty"), Some(LogFormat::Pretty));
    assert_eq!(LogFormat::from_str("json"), Some(LogFormat::Json));
    assert_eq!(LogFormat::from_str("otlp"), Some(LogFormat::Otlp));
    assert_eq!(LogFormat::from_str("datadog"), Some(LogFormat::Datadog));
    assert_eq!(LogFormat::from_str("verbose"), None);
}

#[test]
fn enrichment_names_and_conflict() {
    assert_eq!(enrichment_from_str("none"), Some(EnrichmentMode::Disabled));
    assert_eq!(enrichment_from_str("datadog"), Some(EnrichmentMode::DataDog));
    assert_eq!(enrichment_from_str("opentelemetry"), Some(EnrichmentMode::OpenTelemetry));
    assert_eq!(enrichment_from_str("both"), None);
    assert_eq!(select_enrichment(false, false), Ok(EnrichmentMode::Disabled));
    assert_eq!(select_enrichment(true, false), Ok(EnrichmentMode::DataDog));
    assert_eq!(select_enrichment(false, true), Ok(EnrichmentMode::OpenTelemetry));
    assert_eq!(select_enrichment(true, true), Err(ConfigError::ConflictingEnrichment));
}

#[test]
fn verbosity_mapping() {
    assert_eq!(verbosity_levels(0), (Level::Error, Level::Info));
    assert_eq!(verbosity_levels(1), (Level::Info, Level::Info));
    assert_eq!(verbosity_levels(2), (Level::Info, Level::Debug));
    assert_eq!(verbosity_levels(3), (Level::Info, Level::Trace));
    assert_eq!(verbosity_levels(4), (Level::Debug, Level::Trace));
    assert_eq!(verbosity_levels(9), (Level::Trace, Level::Trace));
}

#[test]
fn key_value_splitting() {
    let (k, v) = parse_key_val("env=prod").unwrap();
    assert_eq!(k, "env");
    assert_eq!(v, "prod");
    let (k, v) = parse_key_val("a=b=c").unwrap();
    assert_eq!(k, "a");
    assert_eq!(v, "b=c");
    assert_eq!(parse_key_val("no separator"), None);
    let (k, v) = parse_key_val("=x").unwrap();
    assert_eq!(k, "");
    assert_eq!(v, "x");
}
