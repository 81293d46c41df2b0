use anarchic_image_hosting_cli::endpoint::{resolve, DEFAULT_ENDPOINT, UPLOAD_SUFFIX};

#[test]
fn config_endpoint_is_used_without_cli_url() {
    assert_eq!(resolve(None, Some("http://a")), "http://a/upload");
}

#[test]
fn cli_url_wins_over_config_endpoint() {
    assert_eq!(resolve(Some("http://b"), Some("http://a")), "http://b/upload");
}

#[test]
fn cli_url_is_used_without_config_endpoint() {
    assert_eq!(resolve(Some("http://b"), None), "http://b/upload");
}

#[test]
fn default_endpoint_when_neither_is_given() {
    assert_eq!(resolve(None, None), "http://localhost:8080/upload");
}

#[test]
fn endpoint_constants() {
    assert_eq!(DEFAULT_ENDPOINT, "http://localhost:8080");
    assert_eq!(UPLOAD_SUFFIX, "/upload");
    assert_eq!(resolve(None, None), format!("{}{}", DEFAULT_ENDPOINT, UPLOAD_SUFFIX));
}

#[test]
fn any_string_is_accepted_as_it_is() {
    assert_eq!(resolve(Some("not a url"), None), "not a url/upload");
    assert_eq!(resolve(None, Some("http://a/")), "http://a//upload");
    assert_eq!(resolve(Some("  http://b  "), Some("http://a")), "  http://b  /upload");
    assert_eq!(resolve(None, Some("héllo://ü")), "héllo://ü/upload");
}

#[test]
fn empty_cli_url_still_wins() {
    assert_eq!(resolve(Some(""), Some("http://a")), "/upload");
    assert_eq!(resolve(None, Some("")), "/upload");
}

#[test]
fn target_keeps_base_and_ends_with_suffix() {
    for (cli, config) in [
        (None, None),
        (Some("http://b"), None),
        (None, Some("http://a")),
        (Some("x"), Some("y")),
    ] {
        let target = resolve(cli, config);
        let base = cli.or(config).unwrap_or(DEFAULT_ENDPOINT);
        assert!(target.starts_with(base));
        assert!(target.ends_with(UPLOAD_SUFFIX));
        assert_eq!(target.len(), base.len() + UPLOAD_SUFFIX.len());
    }
}
