use az_dbx_pat::text::{ends_with_char, push_decimal, starts_with};

#[test]
fn starts_with_compares_characters() {
    assert!(starts_with("https://foo", "https://"));
    assert!(starts_with("https://", "https://"));
    assert!(!starts_with("https:/", "https://"));
    assert!(!starts_with("http://foo", "https://"));
    assert!(starts_with("anything", ""));
    assert!(starts_with("", ""));
    assert!(!starts_with("", "x"));
    assert!(starts_with("é-suite", "é"));
}

#[test]
fn ends_with_char_looks_at_the_last_character_only() {
    assert!(ends_with_char("foo/", '/'));
    assert!(!ends_with_char("/foo", '/'));
    assert!(!ends_with_char("", '/'));
    assert!(ends_with_char("/", '/'));
    assert!(ends_with_char("caf\u{e9}", '\u{e9}'));
}

#[test]
fn push_decimal_writes_base_ten_after_what_is_there() {
    for (n, text) in [(0u16, "0"), (7, "7"), (10, "10"), (403, "403"), (1000, "1000"), (65535, "65535")] {
        let mut out = String::from("HTTP ");
        push_decimal(&mut out, n);
        assert_eq!(out, format!("HTTP {}", text));
    }
}

#[test]
fn push_decimal_agrees_with_the_standard_formatting() {
    for n in [1u16, 9, 11, 99, 100, 101, 200, 299, 300, 404, 500, 999, 9999, 10000, 32768] {
        let mut out = String::new();
        push_decimal(&mut out, n);
        assert_eq!(out, n.to_string());
    }
}
