use vizier_lib::crates_io::{
    crate_doc_from_fields, crate_fields_from_body, crates_io_api_url, crates_io_response_accepted,
    github_api_url, github_authorization, github_repo_info_from_fields, github_response_accepted,
    github_target, json_u32, repo_fields_from_body, JsonField, MAX_GITHUB_RESPONSE_BYTES,
    MAX_RESPONSE_BYTES,
};

#[test]
fn urls_and_headers() {
    assert_eq!(crates_io_api_url("serde"), "https://crates.io/api/v1/crates/serde");
    assert_eq!(github_api_url("a", "b"), "https://api.github.com/repos/a/b");
    assert_eq!(github_authorization("tok"), Some("Bearer tok".to_string()));
    assert_eq!(github_authorization(""), None);
}

#[test]
fn response_limits() {
    assert_eq!(MAX_RESPONSE_BYTES, 1024 * 1024);
    assert_eq!(MAX_GITHUB_RESPONSE_BYTES, 64 * 1024);
    assert!(crates_io_response_accepted(true, None, 10));
    assert!(!crates_io_response_accepted(true, None, 1024 * 1024 + 1));
    assert!(crates_io_response_accepted(true, Some(MAX_RESPONSE_BYTES), 1024 * 1024));
    assert!(!crates_io_response_accepted(true, Some(MAX_RESPONSE_BYTES + 1), 0));
    assert!(!crates_io_response_accepted(false, Some(10), 10));
    assert!(github_response_accepted(true, 65536));
    assert!(!github_response_accepted(true, 65537));
    assert!(!github_response_accepted(false, 1));
}

#[test]
fn crate_doc_from_a_response_body() {
    let body = br#"{"crate":{"name":"serde","description":"A framework","documentation":null,
        "homepage":"https://serde.rs","repository":"https://github.com/serde-rs/serde",
        "newest_version":"1.0.200","max_version":"1.0.201"}}"#;
    let fields = crate_fields_from_body(body);
    assert!(fields.is_some());
    let doc = crate_doc_from_fields(fields).expect("doc");
    assert_eq!(doc.name, "serde");
    assert_eq!(doc.version, "1.0.200");
    assert_eq!(doc.description.as_deref(), Some("A framework"));
    assert_eq!(doc.documentation, None);
    assert_eq!(doc.homepage.as_deref(), Some("https://serde.rs"));
    assert!(doc.github.is_none());
    assert_eq!(github_target(&doc), Some(("serde-rs".to_string(), "serde".to_string())));
}

#[test]
fn crate_version_falls_back_and_defaults() {
    let body = br#"{"crate":{"name":"x","max_version":"2.0.0"}}"#;
    let doc = crate_doc_from_fields(crate_fields_from_body(body)).expect("doc");
    assert_eq!(doc.version, "2.0.0");
    let body = br#"{"crate":{"name":"x","newest_version":null,"max_version":"2.0.0"}}"#;
    let doc = crate_doc_from_fields(crate_fields_from_body(body)).expect("doc");
    assert_eq!(doc.version, "?");
}

#[test]
fn crate_doc_needs_a_crate_with_a_name() {
    assert!(crate_fields_from_body(b"not json").is_none());
    assert!(crate_fields_from_body(br#"{"other":1}"#).is_none());
    assert!(crate_doc_from_fields(crate_fields_from_body(br#"{"crate":{"name":3}}"#)).is_none());
    assert!(crate_doc_from_fields(None).is_none());
}

#[test]
fn github_metrics_from_a_response_body() {
    let body = br#"{"stargazers_count":4294967297,"forks_count":12,"language":"Rust",
        "updated_at":"2024-05-01T10:00:00Z","open_issues_count":-1,"default_branch":"main"}"#;
    let f = repo_fields_from_body(body).expect("fields");
    let info = github_repo_info_from_fields(&f);
    assert_eq!(info.stars, Some(1));
    assert_eq!(info.forks, Some(12));
    assert_eq!(info.language.as_deref(), Some("Rust"));
    assert_eq!(info.open_issues_count, None);
    assert_eq!(info.default_branch.as_deref(), Some("main"));
    assert!(repo_fields_from_body(b"{").is_none());
    assert_eq!(json_u32(&JsonField::Unsigned(7)), Some(7));
    assert_eq!(json_u32(&JsonField::Text("7".to_string())), None);
}
