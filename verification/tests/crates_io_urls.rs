use vizier_lib::crates_io::parse_github_url;

#[test]
fn test_parse_github_url() {
    assert_eq!(
        parse_github_url("https://github.com/rust-lang/rust"),
        Some(("rust-lang".into(), "rust".into()))
    );
    assert_eq!(
        parse_github_url("https://github.com/owner/repo/"),
        Some(("owner".into(), "repo".into()))
    );
    assert_eq!(
        parse_github_url("http://github.com/a/b"),
        Some(("a".into(), "b".into()))
    );
    assert!(parse_github_url("https://gitlab.com/owner/repo").is_none());
    assert!(parse_github_url("https://github.com/").is_none());
    assert!(parse_github_url("").is_none());
}

#[test]
fn github_urls_parse_after_trimming() {
    assert_eq!(
        parse_github_url("  https://github.com/serde-rs/serde//  "),
        Some(("serde-rs".to_string(), "serde".to_string()))
    );
    assert_eq!(
        parse_github_url("http://github.com/tokio-rs/tokio/tree/master"),
        Some(("tokio-rs".to_string(), "tokio".to_string()))
    );
    assert_eq!(parse_github_url("https://github.com/owner"), None);
    assert_eq!(parse_github_url("https://github.com//repo"), None);
}
