use az_dbx_pat::headers::create_header;
use reqwest::header::{AUTHORIZATION, CONTENT_TYPE};

#[test]
fn headers_carry_json_and_the_bearer_credential() {
    let headers = create_header("abc123").unwrap();
    assert_eq!(headers.get(AUTHORIZATION).unwrap().to_str().unwrap(), "Bearer abc123");
    assert_eq!(headers.get(CONTENT_TYPE).unwrap().to_str().unwrap(), "application/json");
    assert_eq!(headers.get("authorization").unwrap().as_bytes(), b"Bearer abc123");
    assert_eq!(headers.get("content-type").unwrap().as_bytes(), b"application/json");
}

#[test]
fn headers_hold_exactly_two_entries() {
    let headers = create_header("abc123").unwrap();
    assert_eq!(headers.len(), 2);
    assert_eq!(headers.keys_len(), 2);
}

#[test]
fn credential_with_newline_is_refused() {
    let error = create_header("abc\n123").unwrap_err();
    assert_eq!(error.message, "failed to parse header value");
}

#[test]
fn credential_with_control_characters_is_refused() {
    for token in ["\n", "a\rb", "\u{0}", "x\u{1f}", "del\u{7f}", "tail\n"] {
        assert!(create_header(token).is_err(), "{:?}", token);
    }
}

#[test]
fn credential_with_tab_or_space_is_accepted() {
    let headers = create_header("a\tb c").unwrap();
    assert_eq!(headers.get(AUTHORIZATION).unwrap().as_bytes(), b"Bearer a\tb c");
}

#[test]
fn empty_credential_is_accepted() {
    let headers = create_header("").unwrap();
    assert_eq!(headers.get(AUTHORIZATION).unwrap().as_bytes(), b"Bearer ");
}

#[test]
fn credential_beyond_ascii_is_kept_as_utf8() {
    let headers = create_header("t\u{f6}k\u{20ac}").unwrap();
    assert_eq!(
        headers.get(AUTHORIZATION).unwrap().as_bytes(),
        "Bearer t\u{f6}k\u{20ac}".as_bytes()
    );
}
