use pando::validation::{escape_like_wildcards, validate_key};

const SEGMENT_ERROR: &str =
    "key must not be empty and must not have leading, trailing, or double hyphens";

#[test]
fn kebab_case_keys_are_accepted() {
    assert_eq!(validate_key("timezone"), Ok(()));
    assert_eq!(validate_key("home-address-2"), Ok(()));
    assert_eq!(validate_key("a1-b2-c3"), Ok(()));
    assert_eq!(validate_key("0"), Ok(()));
}

#[test]
fn empty_key_is_rejected() {
    assert_eq!(validate_key(""), Err(SEGMENT_ERROR.to_string()));
}

#[test]
fn misplaced_hyphens_are_rejected() {
    assert_eq!(validate_key("-lead"), Err(SEGMENT_ERROR.to_string()));
    assert_eq!(validate_key("trail-"), Err(SEGMENT_ERROR.to_string()));
    assert_eq!(validate_key("double--hyphen"), Err(SEGMENT_ERROR.to_string()));
    assert_eq!(validate_key("-"), Err(SEGMENT_ERROR.to_string()));
}

#[test]
fn invalid_characters_name_their_segment() {
    assert_eq!(
        validate_key("Time-zone"),
        Err("key segment 'Time' is invalid \u{2014} only lowercase letters and digits are allowed"
            .to_string())
    );
    assert_eq!(
        validate_key("ok-has space"),
        Err("key segment 'has space' is invalid \u{2014} only lowercase letters and digits are allowed"
            .to_string())
    );
    assert_eq!(
        validate_key("snake_case"),
        Err("key segment 'snake_case' is invalid \u{2014} only lowercase letters and digits are allowed"
            .to_string())
    );
}

#[test]
fn the_first_bad_segment_decides_the_message() {
    assert_eq!(
        validate_key("Bad--x"),
        Err("key segment 'Bad' is invalid \u{2014} only lowercase letters and digits are allowed"
            .to_string())
    );
    assert_eq!(validate_key("ok--Bad"), Err(SEGMENT_ERROR.to_string()));
}

#[test]
fn wildcards_and_backslashes_are_escaped() {
    assert_eq!(escape_like_wildcards("50%_off"), "50\\%\\_off");
    assert_eq!(escape_like_wildcards("a\\b"), "a\\\\b");
    assert_eq!(escape_like_wildcards("plain text"), "plain text");
    assert_eq!(escape_like_wildcards(""), "");
    assert_eq!(escape_like_wildcards("\u{e9}t\u{e9}_%"), "\u{e9}t\u{e9}\\_\\%");
}

/// Reads a LIKE pattern with `\` as escape character back into the text it
/// matches literally; `None` when it has an active wildcard.
fn like_literal(pattern: &str) -> Option<String> {
    let mut out = String::new();
    let mut chars = pattern.chars();
    while let Some(c) = chars.next() {
        match c {
            '\\' => out.push(chars.next()?),
            '%' | '_' => return None,
            other => out.push(other),
        }
    }
    Some(out)
}

#[test]
fn escaped_text_matches_itself_literally() {
    for text in ["100%", "a_b", "\\%\\_", "nothing special", "%%__\\\\"] {
        assert_eq!(like_literal(&escape_like_wildcards(text)), Some(text.to_string()));
    }
}
