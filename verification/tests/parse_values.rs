//! The decimal value codec: parsing, truncation, rendering.

use gira_iot_api::errors::CommandError;
use gira_iot_api::parse::{eq_str, parse_u16, parse_value_string, u16_to_string};
use gira_iot_api::values::{
    fn_values_from_response, value_from_response, write_request_body, Value, ValueEntry,
    ValueWrite,
};

fn entry(uid: &str, value: &str) -> ValueEntry {
    ValueEntry { uid: uid.to_string(), value: value.to_string() }
}

#[test]
fn parse_plain_decimals() {
    assert_eq!(parse_u16("0"), Some(0));
    assert_eq!(parse_u16("42"), Some(42));
    assert_eq!(parse_u16("007"), Some(7));
    assert_eq!(parse_u16("65535"), Some(65535));
}

#[test]
fn parse_rejects_bad_decimals() {
    assert_eq!(parse_u16(""), None);
    assert_eq!(parse_u16("abc"), None);
    assert_eq!(parse_u16("1a"), None);
    assert_eq!(parse_u16("65536"), None);
    assert_eq!(parse_u16("-1"), None);
    assert_eq!(parse_u16("0.5"), None);
}

#[test]
fn parse_truncates_fractional_suffix() {
    assert_eq!(parse_value_string("1"), Some(1));
    assert_eq!(parse_value_string("0.5"), Some(0));
    assert_eq!(parse_value_string("1.9"), Some(1));
    assert_eq!(parse_value_string("42.42"), Some(42));
    assert_eq!(parse_value_string("."), None);
    assert_eq!(parse_value_string("-0.5"), None);
    assert_eq!(parse_value_string(""), None);
}

#[test]
fn render_decimals() {
    assert!(eq_str(u16_to_string(0).as_str(), "0"));
    assert!(eq_str(u16_to_string(7).as_str(), "7"));
    assert!(eq_str(u16_to_string(120).as_str(), "120"));
    assert!(eq_str(u16_to_string(65535).as_str(), "65535"));
}

#[test]
fn render_parse_roundtrip() {
    let values: [u16; 6] = [0, 1, 9, 10, 4097, 65535];
    for v in values {
        let s = u16_to_string(v);
        assert_eq!(parse_u16(s.as_str()), Some(v));
    }
}

#[test]
fn write_body_shape() {
    let w = ValueWrite { uid: "abc123".to_string(), value: 7 };
    let body = write_request_body(&w);
    assert_eq!(body.as_str(), "{\"values\": [{\"uid\": \"abc123\", \"value\": 7}]}");
}

#[test]
fn single_value_read() {
    let v = Value { values: Some(vec![entry("dp1", "1")]), error: None };
    assert_eq!(value_from_response(&v), Ok(1));
}

#[test]
fn single_value_read_truncates() {
    let v = Value { values: Some(vec![entry("dp1", "17.25")]), error: None };
    assert_eq!(value_from_response(&v), Ok(17));
}

#[test]
fn single_value_read_without_values_is_zero() {
    let v = Value { values: None, error: None };
    assert_eq!(value_from_response(&v), Ok(0));
}

#[test]
fn single_value_read_empty_list_is_malformed() {
    let v = Value { values: Some(vec![]), error: None };
    assert_eq!(value_from_response(&v), Err(CommandError::MalformedResponse));
}

#[test]
fn single_value_read_bad_number_is_malformed() {
    let v = Value { values: Some(vec![entry("dp1", "on")]), error: None };
    assert_eq!(value_from_response(&v), Err(CommandError::MalformedResponse));
}

#[test]
fn function_values_parse_plainly_with_zero_default() {
    let v = Value {
        values: Some(vec![entry("dp1", "12"), entry("dp2", "0.5"), entry("dp3", "oops")]),
        error: None,
    };
    let parsed = fn_values_from_response(&v);
    assert_eq!(parsed.len(), 3);
    assert_eq!(parsed[0].uid.as_str(), "dp1");
    assert_eq!(parsed[0].value, 12);
    assert_eq!(parsed[1].uid.as_str(), "dp2");
    assert_eq!(parsed[1].value, 0);
    assert_eq!(parsed[2].value, 0);
}

#[test]
fn function_values_without_values_list() {
    let v = Value { values: None, error: None };
    let parsed = fn_values_from_response(&v);
    assert_eq!(parsed.len(), 0);
}
