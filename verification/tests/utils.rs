use spider_util::utils::normalize_origin;

#[test]
fn origin_has_scheme_host_and_port() {
    assert_eq!(
        normalize_origin("https", Some("a.example"), Some(443)),
        "https://a.example:443"
    );
    assert_eq!(
        normalize_origin("http", Some("a.example"), Some(8080)),
        "http://a.example:8080"
    );
    assert_eq!(normalize_origin("http", Some("[::1]"), Some(65535)), "http://[::1]:65535");
}

#[test]
fn origin_without_host_or_port() {
    assert_eq!(normalize_origin("data", None, None), "data://:0");
    assert_eq!(normalize_origin("file", Some(""), None), "file://:0");
    assert_eq!(normalize_origin("ftp", None, Some(21)), "ftp://:21");
    assert_eq!(normalize_origin("custom", Some("host"), None), "custom://host:0");
}
