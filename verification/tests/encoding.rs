use pando::codec::{base64_url_encode, form_urlencode, hex_encode};
use pando::crypto::{constant_time_eq, random_alphanumeric, sha256_digest};
use pando::dates::parse_iso8601_date;
use pando::text::decimal_i64;
use pando::web::{header_value_accepts, parse_uri_authority};

#[test]
fn sha256_of_abc() {
    let digest = sha256_digest(b"abc");
    assert_eq!(digest.len(), 32);
    assert_eq!(
        hex_encode(&digest),
        "ba7816bf8f01cfea414140de5dae2223b00361a396177a9cb410ff61f20015ad"
    );
}

#[test]
fn hex_is_lowercase_two_digits_per_byte() {
    assert_eq!(hex_encode(&[0x00, 0x0f, 0xa0, 0xff]), "000fa0ff");
    assert_eq!(hex_encode(&[]), "");
}

#[test]
fn base64_url_without_padding() {
    assert_eq!(base64_url_encode(b""), "");
    assert_eq!(base64_url_encode(b"f"), "Zg");
    assert_eq!(base64_url_encode(b"fo"), "Zm8");
    assert_eq!(base64_url_encode(b"foo"), "Zm9v");
    assert_eq!(base64_url_encode(&[0xfb, 0xff]), "-_8");
}

#[test]
fn form_encoding_of_pairs() {
    assert_eq!(
        form_urlencode(&[("foo", "bar & baz"), ("saison", "\u{c9}t\u{e9}+hiver")]),
        "foo=bar+%26+baz&saison=%C3%89t%C3%A9%2Bhiver"
    );
    assert_eq!(form_urlencode(&[]), "");
    assert_eq!(form_urlencode(&[("a*-._", "~")]), "a*-._=%7E");
}

#[test]
fn constant_time_comparison() {
    assert!(constant_time_eq(b"secret", b"secret"));
    assert!(!constant_time_eq(b"secret", b"secreT"));
    assert!(!constant_time_eq(b"secret", b"secret!"));
    assert!(constant_time_eq(b"", b""));
}

#[test]
fn random_identifiers_are_alphanumeric() {
    let a = random_alphanumeric(43);
    assert_eq!(a.chars().count(), 43);
    assert!(a.chars().all(|c| c.is_ascii_alphanumeric()));
    assert_eq!(random_alphanumeric(0), "");
}

#[test]
fn iso_dates_parse_to_calendar_days() {
    assert_eq!(parse_iso8601_date("2024-02-29"), Some((2024, 2, 29)));
    assert_eq!(parse_iso8601_date("2023-12-31"), Some((2023, 12, 31)));
    assert_eq!(parse_iso8601_date("2023-02-29"), None);
    assert_eq!(parse_iso8601_date("2024-13-01"), None);
    assert_eq!(parse_iso8601_date("tomorrow"), None);
    assert_eq!(parse_iso8601_date(""), None);
    assert_eq!(parse_iso8601_date("2000-02-29"), Some((2000, 2, 29)));
    assert_eq!(parse_iso8601_date("1900-02-29"), None);
    assert_eq!(parse_iso8601_date("0001-01-01"), Some((1, 1, 1)));
}

#[test]
fn header_values_refuse_control_characters() {
    assert!(header_value_accepts("Bearer abc"));
    assert!(header_value_accepts("caf\u{e9}"));
    assert!(header_value_accepts("tab\there"));
    assert!(!header_value_accepts("line\nbreak"));
    assert!(!header_value_accepts("del\u{7f}"));
}

#[test]
fn uri_authorities() {
    assert_eq!(
        parse_uri_authority("https://pando.example.com:8443/path"),
        Some("pando.example.com:8443".to_string())
    );
    assert_eq!(parse_uri_authority("/relative/only"), None);
    assert_eq!(parse_uri_authority("not a uri"), None);
}

#[test]
fn decimal_rendering() {
    assert_eq!(decimal_i64(0), "0");
    assert_eq!(decimal_i64(42), "42");
    assert_eq!(decimal_i64(-7), "-7");
    assert_eq!(decimal_i64(i64::MAX), "9223372036854775807");
    assert_eq!(decimal_i64(i64::MIN), "-9223372036854775808");
}
