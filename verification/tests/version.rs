use dvup::version::{
    LatestReply, LatestVersionError, LatestVersionErrorKind, LatestVersionSource, RateLimitHeaders,
    encode_path_segment, extract_versions, fetch_github_rate_limit, fetch_latest,
    github_rate_limit_from_parts, latest_request, normalize_release, strip_terminal_escapes,
};

#[test]
fn normalizes_registry_and_github_release_versions() {
    assert_eq!(
        normalize_release("0.144.1").expect("npm version"),
        "0.144.1"
    );
    assert_eq!(
        normalize_release("v2.9.2").expect("GitHub version"),
        "2.9.2"
    );
    assert_eq!(
        normalize_release("bun-v1.3.14").expect("prefixed GitHub version"),
        "1.3.14"
    );
    assert!(normalize_release("release-without-version").is_err());
}

#[test]
fn extracts_versions_from_stdout_stderr_and_ansi_output() {
    assert_eq!(
        extract_versions(b"\x1b[32mtool 1.2.3\x1b[0m\n", b"runtime v4.5.6\n"),
        ["1.2.3", "4.5.6"]
    );
    assert!(extract_versions(b"tool release", b"").is_empty());
}

#[test]
fn percent_encodes_scoped_registry_packages() {
    assert_eq!(encode_path_segment("@openai/codex"), "%40openai%2Fcodex");
    assert_eq!(encode_path_segment("dvup"), "dvup");
}

#[test]
fn classifies_latest_version_http_failures_for_actionable_tui_status() {
    assert_eq!(
        LatestVersionError::request(ureq::Error::StatusCode(403)).kind,
        LatestVersionErrorKind::RateLimited
    );
    assert_eq!(
        LatestVersionError::request(ureq::Error::StatusCode(429)).kind,
        LatestVersionErrorKind::RateLimited
    );
    assert_eq!(
        LatestVersionError::request(ureq::Error::StatusCode(401)).kind,
        LatestVersionErrorKind::Authentication
    );
    assert_eq!(
        LatestVersionError::request(ureq::Error::StatusCode(404)).kind,
        LatestVersionErrorKind::NotFound
    );
}

#[test]
fn validates_authenticated_github_owner_and_rate_limit() {
    let status =
        github_rate_limit_from_parts("octocat".to_owned(), 5_000, 125, 4_875, 1_800_000_000)
            .expect("valid authenticated API status");

    assert_eq!(status.owner, "octocat");
    assert_eq!(status.limit, 5_000);
    assert_eq!(status.used, 125);
    assert_eq!(status.remaining, 4_875);
    assert_eq!(status.reset_unix, 1_800_000_000);
    assert!(github_rate_limit_from_parts(String::new(), 5_000, 1, 4_999, 1).is_err());
    assert!(github_rate_limit_from_parts("octocat".to_owned(), 5_000, 5_001, 0, 1).is_err());
}

#[test]
fn other_request_failures_keep_their_text() {
    let error = LatestVersionError::request(ureq::Error::StatusCode(500));
    assert_eq!(error.kind, LatestVersionErrorKind::RequestFailed);
    assert_eq!(error.detail(), "http status: 500");
    let error = LatestVersionError::request(ureq::Error::HostNotFound);
    assert_eq!(error.kind, LatestVersionErrorKind::RequestFailed);
    assert_eq!(error.detail(), "host not found");
}

#[test]
fn a_reported_status_is_told_in_decimal() {
    for code in [401, 403, 404, 429, 503] {
        let error = LatestVersionError::request(ureq::Error::StatusCode(code));
        assert_eq!(error.detail(), format!("http status: {code}"));
    }
}

#[test]
fn escapes_are_taken_out_once_and_for_all() {
    let colored = "\u{1b}[1;32mtool\u{1b}[0m\t1.2.3\u{1b}]8;;https://example.com\u{7}\r\nend\u{1b}";
    let plain = strip_terminal_escapes(colored);
    assert_eq!(plain, "tool\t1.2.3\nend");
    assert_eq!(strip_terminal_escapes(&plain), plain);
    assert_eq!(strip_terminal_escapes("\u{1b}]0;title\u{1b}\\done"), "done");
}

#[test]
fn each_registry_is_asked_at_its_own_address() {
    let npm = LatestVersionSource::Npm { package: "@openai/codex".to_owned() };
    let request = latest_request(&npm, Some("key"));
    assert!(request.url.ends_with("%40openai%2Fcodex/latest"), "url: {}", request.url);
    assert!(request.authorization.is_none());

    let github = LatestVersionSource::GithubRelease { repository: "astral-sh/uv".to_owned() };
    let request = latest_request(&github, Some("key"));
    assert_eq!(
        request.url,
        "https://api.github.com/repos/astral-sh/uv/releases/latest"
    );
    assert_eq!(request.authorization.as_deref(), Some("Bearer key"));
    assert!(latest_request(&github, None).authorization.is_none());
}

#[test]
fn replies_become_versions_or_errors() {
    let source = LatestVersionSource::CratesIo { package: "dvup".to_owned() };
    let reply = LatestReply::Versions(vec!["v1.4.2".to_owned()]);
    assert_eq!(fetch_latest(&source, reply).map_err(|error| error.kind), Ok("1.4.2".to_owned()));
    let reply = LatestReply::Versions(vec!["nightly".to_owned()]);
    assert_eq!(
        fetch_latest(&source, reply).map_err(|error| error.kind),
        Err(LatestVersionErrorKind::InvalidResponse)
    );
    let reply = LatestReply::Unreadable("not JSON".to_owned());
    assert_eq!(
        fetch_latest(&source, reply).map_err(|error| error.kind),
        Err(LatestVersionErrorKind::InvalidResponse)
    );
    let tags = LatestVersionSource::GithubTag { repository: "owner/name".to_owned() };
    assert_eq!(
        fetch_latest(&tags, LatestReply::Versions(Vec::new())).map_err(|error| error.kind),
        Err(LatestVersionErrorKind::NotFound)
    );
    let failed = LatestReply::Failed(LatestVersionError::new(
        LatestVersionErrorKind::Authentication,
        "http status: 401",
    ));
    assert_eq!(
        fetch_latest(&source, failed).map_err(|error| error.kind),
        Err(LatestVersionErrorKind::Authentication)
    );
}

#[test]
fn rate_limit_headers_must_all_be_numbers() {
    let headers = |remaining: Option<&str>| RateLimitHeaders {
        limit: Some("5000".to_owned()),
        used: Some("125".to_owned()),
        remaining: remaining.map(str::to_owned),
        reset: Some("1800000000".to_owned()),
    };
    let status = fetch_github_rate_limit(&headers(Some("4875")), Ok("octocat".to_owned()))
        .expect("valid headers");
    assert_eq!(status.remaining, 4_875);
    assert!(fetch_github_rate_limit(&headers(None), Ok("octocat".to_owned())).is_err());
    assert!(fetch_github_rate_limit(&headers(Some("many")), Ok("octocat".to_owned())).is_err());
    assert!(fetch_github_rate_limit(&headers(Some("4875")), Err("refused".to_owned())).is_err());
}

#[test]
fn invalid_bytes_do_not_hide_a_version() {
    assert_eq!(extract_versions(b"\xff tool 1.2.3\n", b""), ["1.2.3"]);
}

#[test]
fn a_release_begins_with_its_first_digit() {
    assert_eq!(normalize_release("  release-v1.2  "), Ok("1.2".to_owned()));
    assert_eq!(normalize_release("1.2"), Ok("1.2".to_owned()));
    assert_eq!(
        normalize_release(" latest "),
        Err("latest-version source returned an invalid release `latest`".to_owned())
    );
}

#[test]
fn plain_segments_stand_for_themselves_and_others_decode() {
    assert_eq!(encode_path_segment("Ab9-._~"), "Ab9-._~");
    assert_eq!(encode_path_segment("%"), "%25");
    assert_eq!(encode_path_segment("é/ü"), "%C3%A9%2F%C3%BC");
    assert_ne!(encode_path_segment("a%2Fb"), encode_path_segment("a/b"));
}
