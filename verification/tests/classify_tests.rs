use katbin::classify::is_url;

#[test]
fn https_url_with_path_is_a_url() {
    assert!(is_url("https://example.com/x"));
}

#[test]
fn plain_text_is_not_a_url() {
    assert!(!is_url("hello world"));
}

#[test]
fn disallowed_scheme_is_not_a_url() {
    assert!(!is_url("ftp://example.com"));
}

#[test]
fn own_domain_is_excluded() {
    assert!(!is_url("https://sub.katb.in/path"));
}

#[test]
fn mailto_is_a_url() {
    assert!(is_url("mailto:a@b.com"));
}

#[test]
fn http_url_is_a_url() {
    assert!(is_url("http://example.com"));
}

#[test]
fn host_without_dot_is_not_a_url() {
    assert!(!is_url("https://localhost/x"));
}

#[test]
fn relative_text_does_not_parse_as_url() {
    assert!(!is_url("example.com/x"));
}

#[test]
fn empty_content_is_not_a_url() {
    assert!(!is_url(""));
}
