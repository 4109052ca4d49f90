use bitvavo_api_client::text::{
    decimal_string, json_string_text, parse_i64, signed_decimal_string, str_eq,
};

#[test]
fn decimal_notation_of_numbers() {
    assert_eq!(decimal_string(0), "0");
    assert_eq!(decimal_string(10), "10");
    assert_eq!(decimal_string(u64::MAX), "18446744073709551615");
    assert_eq!(signed_decimal_string(-42), "-42");
    assert_eq!(signed_decimal_string(i64::MIN), "-9223372036854775808");
    assert_eq!(signed_decimal_string(i64::MAX), "9223372036854775807");
}

#[test]
fn json_strings_escape_quotes_backslashes_and_controls() {
    assert_eq!(json_string_text("BTC-EUR"), "\"BTC-EUR\"");
    assert_eq!(json_string_text("a\"b\\c"), "\"a\\\"b\\\\c\"");
    assert_eq!(json_string_text("\n\r\t\u{8}\u{c}"), "\"\\n\\r\\t\\b\\f\"");
    assert_eq!(json_string_text("\u{1}\u{1f}"), "\"\\u0001\\u001f\"");
    assert_eq!(json_string_text("é/€"), "\"é/€\"");
    for text in ["", "plain", "quote\"", "ctl\u{7}", "ünï"] {
        let parsed: String = serde_json::from_str(&json_string_text(text)).unwrap();
        assert_eq!(parsed, text);
        assert_eq!(json_string_text(text), serde_json::to_string(text).unwrap());
    }
}

#[test]
fn parse_i64_follows_str_parse() {
    for text in [
        "0", "42", "-42", "+42", "", "-", "+", "1x", " 1", "9223372036854775807",
        "9223372036854775808", "-9223372036854775808", "-9223372036854775809",
        "99999999999999999999999", "007", "--1",
    ] {
        assert_eq!(parse_i64(text), text.parse::<i64>().ok(), "input {text:?}");
    }
}

#[test]
fn str_eq_compares_characters() {
    assert!(str_eq("ticker", "ticker"));
    assert!(!str_eq("ticker", "ticker24h"));
    assert!(!str_eq("", "a"));
}

#[test]
fn parse_i64_reads_back_decimal_notation() {
    for value in [0i64, 1, -1, 42, -42, 1_700_000_000_000, i64::MIN, i64::MAX] {
        assert_eq!(parse_i64(&signed_decimal_string(value)), Some(value));
    }
}
