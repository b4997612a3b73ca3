use relision::util::{escape, str_eq};

#[test]
fn plain_ascii_passes_through() {
    let (out, fixed) = escape(&"abc xyz".to_string(), '`');
    assert_eq!(out, "abc xyz");
    assert!(!fixed);
}

#[test]
fn empty_string_passes_through() {
    let (out, fixed) = escape(&"".to_string(), '"');
    assert_eq!(out, "");
    assert!(!fixed);
}

#[test]
fn border_is_escaped() {
    let (out, fixed) = escape(&"a\"b".to_string(), '"');
    assert_eq!(out, "a\\\"b");
    assert!(fixed);
}

#[test]
fn backtick_border_is_escaped() {
    let (out, fixed) = escape(&"a`b".to_string(), '`');
    assert_eq!(out, "a\\`b");
    assert!(fixed);
}

#[test]
fn quote_passes_when_not_border() {
    let (out, fixed) = escape(&"a\"b".to_string(), '`');
    assert_eq!(out, "a\"b");
    assert!(!fixed);
}

#[test]
fn control_characters_are_escaped() {
    let (out, fixed) = escape(&"\0\t\n\r\\".to_string(), '"');
    assert_eq!(out, "\\0\\t\\n\\r\\\\");
    assert!(fixed);
}

#[test]
fn high_latin_is_hex_escaped() {
    // U+00E9 is above 127 and below 256: two upper-case hex digits.
    let (out, fixed) = escape(&"caf\u{e9}".to_string(), '"');
    assert_eq!(out, "caf\\xE9");
    assert!(fixed);
}

#[test]
fn boundary_code_points() {
    // 127 passes through; 128 is the first hex-escaped code point.
    let (out, fixed) = escape(&"\u{7f}".to_string(), '"');
    assert_eq!(out, "\u{7f}");
    assert!(!fixed);
    let (out, fixed) = escape(&"\u{80}".to_string(), '"');
    assert_eq!(out, "\\x80");
    assert!(fixed);
}

#[test]
fn wide_code_points_use_braced_form() {
    let (out, fixed) = escape(&"\u{100}".to_string(), '"');
    assert_eq!(out, "\\u{100}");
    assert!(fixed);
    let (out, fixed) = escape(&"\u{1F600}".to_string(), '"');
    assert_eq!(out, "\\u{1F600}");
    assert!(fixed);
}

#[test]
fn escaping_unchanged_is_idempotent() {
    // No special characters: one more round changes nothing either.
    let input = "plain text".to_string();
    let (once, fixed_once) = escape(&input, '"');
    assert!(!fixed_once);
    let (twice, fixed_twice) = escape(&once, '"');
    assert_eq!(once, twice);
    assert!(!fixed_twice);
}

#[test]
fn str_eq_compares_by_characters() {
    assert!(str_eq("abc", "abc"));
    assert!(!str_eq("abc", "abd"));
    assert!(!str_eq("abc", "ab"));
    assert!(str_eq("", ""));
}
