use az_dbx_pat::endpoint::get_dbx_token_url;

const PATH: &str = "/api/2.0/token/create";

#[test]
fn bare_host_gets_scheme_and_path() {
    assert_eq!(get_dbx_token_url("foo.net"), "https://foo.net/api/2.0/token/create");
}

#[test]
fn full_url_with_trailing_slash_loses_the_slash() {
    assert_eq!(get_dbx_token_url("https://foo.net/"), "https://foo.net/api/2.0/token/create");
}

#[test]
fn full_url_is_left_alone() {
    assert_eq!(get_dbx_token_url("https://foo.net"), "https://foo.net/api/2.0/token/create");
}

#[test]
fn normalizing_the_base_again_changes_nothing() {
    let endpoint = get_dbx_token_url("https://foo.net");
    let base = endpoint.strip_suffix(PATH).unwrap();
    assert_eq!(base, "https://foo.net");
    assert_eq!(get_dbx_token_url(base), endpoint);
}

#[test]
fn only_one_trailing_slash_is_stripped() {
    assert_eq!(get_dbx_token_url("foo.net//"), "https://foo.net//api/2.0/token/create");
}

#[test]
fn scheme_and_path_appear_once_for_bare_hosts() {
    for host in ["a", "adb-123.azuredatabricks.net", "https", "https:", "http://foo.net", "föö.net"] {
        let endpoint = get_dbx_token_url(host);
        assert_eq!(endpoint, format!("https://{}{}", host, PATH));
        let rest = endpoint.strip_prefix("https://").unwrap();
        assert!(!rest.starts_with("https://"));
        assert_eq!(endpoint.chars().count(), host.chars().count() + 8 + 21);
    }
}

#[test]
fn other_schemes_are_not_recognised() {
    assert_eq!(
        get_dbx_token_url("http://foo.net/"),
        "https://http://foo.net/api/2.0/token/create"
    );
    assert_eq!(
        get_dbx_token_url("HTTPS://foo.net"),
        "https://HTTPS://foo.net/api/2.0/token/create"
    );
}

#[test]
fn empty_and_slash_only_inputs_still_give_a_url() {
    assert_eq!(get_dbx_token_url(""), "https:///api/2.0/token/create");
    assert_eq!(get_dbx_token_url("/"), "https:///api/2.0/token/create");
    assert_eq!(get_dbx_token_url("https://"), "https://https://api/2.0/token/create");
}

#[test]
fn characters_beyond_ascii_are_kept() {
    assert_eq!(get_dbx_token_url("bücher.example/"), "https://bücher.example/api/2.0/token/create");
}
