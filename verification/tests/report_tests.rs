use ghpc::cache::{CacheState, CacheStatus};
use ghpc::cli::Cli;
use ghpc::flow::{DownloadFlowResult, TokenSource};
use ghpc::report::{
    build_status_output, classify_error, file_status, format_file_mode, format_remaining_seconds,
    handle_error, handle_success, remaining_seconds, status_lines, ErrorReport, FileFacts,
    FileStatusOutput, SuccessReport,
};

fn cli() -> Cli {
    Cli {
        username: None,
        password: None,
        quiet: false,
        verbose: false,
        force: false,
        status: false,
        json: false,
        password_stdin: false,
        print_token: false,
    }
}

#[test]
fn remaining_seconds_text() {
    assert_eq!(format_remaining_seconds(0), "0s");
    assert_eq!(format_remaining_seconds(-5), "0s");
    assert_eq!(format_remaining_seconds(5025), "1h 23m 45s");
    assert_eq!(format_remaining_seconds(86_400), "1d");
    assert_eq!(format_remaining_seconds(90_061), "1d 1h 1m 1s");
    assert_eq!(format_remaining_seconds(3_600 + 5), "1h 5s");
    assert_eq!(format_remaining_seconds(59), "59s");
    assert_eq!(format_remaining_seconds(7_200), "2h");
}

#[test]
fn file_mode_text() {
    assert_eq!(format_file_mode(0o100600), "600");
    assert_eq!(format_file_mode(0o755), "755");
    assert_eq!(format_file_mode(0o7), "007");
}

#[test]
fn classify_passes_known_failures_through() {
    for raw in [
        "Failed to read password: no tty",
        "Password read from stdin was empty",
        "Failed to get execution token",
        "Failed to get token",
        "Failed to get private key: token expired",
        "Login failed, status: 401",
    ] {
        assert_eq!(classify_error(raw), (raw.to_string(), None));
    }
}

#[test]
fn classify_normalises_transport_failures() {
    let cases = [
        ("hpc.cugb.edu.cn: Dns Failed: resolve", "network error: failed to resolve hpc.cugb.edu.cn"),
        ("failed to lookup address information: x", "network error: failed to resolve hpc.cugb.edu.cn"),
        ("Connection Timed Out", "network error: request timed out"),
        ("invalid peer certificate", "network error: tls handshake failed"),
        ("io: Connection refused (os error 111)", "network error: connection to the hpc service failed"),
        ("https://hpc.cugb.edu.cn/sso/login: status code 500", "network error: request to the hpc service failed"),
        ("Failed to determine home directory", "local error: could not determine home directory"),
        ("Permission denied (os error 13)", "local error: permission denied while writing local files"),
    ];
    for (raw, message) in cases {
        assert_eq!(classify_error(raw), (message.to_string(), Some(raw.to_string())));
    }
    assert_eq!(classify_error("something else"), ("something else".to_string(), None));
}

fn file(path: &str, exists: bool) -> FileStatusOutput {
    FileStatusOutput {
        path: path.to_string(),
        exists,
        mode: if exists { Some("600".to_string()) } else { None },
        modified_at_ms: None,
        modified_at: if exists { Some("2026-04-11 11:11:11".to_string()) } else { None },
        size_bytes: if exists { Some(475) } else { None },
    }
}

#[test]
fn status_of_a_valid_cache() {
    let status = CacheStatus {
        state: CacheState::Valid,
        parse_error: None,
        username: Some("your_user".to_string()),
        expires_at: Some(10_000_000),
    };
    let out = build_status_output(
        status,
        file("/home/you/.hpc-login-cache.json", true),
        file("/home/you/.hpckey", false),
        10_000_000 - 5_025_500,
        Some("2026-04-11 12:34:56".to_string()),
    );
    assert!(out.ok && out.cache_exists && out.cache_valid);
    assert_eq!(out.cache_state, "valid");
    assert_eq!(out.remaining_seconds, Some(5025));
    assert_eq!(
        status_lines(&out),
        vec![
            "Cache: valid",
            "Cache path: /home/you/.hpc-login-cache.json",
            "Cache file: present",
            "Cache mode: 600",
            "Cache modified: 2026-04-11 11:11:11",
            "Cache size: 475 bytes",
            "Username: your_user",
            "Expires: 2026-04-11 12:34:56",
            "Remaining: 1h 23m 45s",
            "Key path: /home/you/.hpckey",
            "Key file: missing",
        ]
    );
}

#[test]
fn status_of_invalid_and_expired_caches() {
    let invalid = CacheStatus {
        state: CacheState::Invalid,
        parse_error: Some("Failed to parse cache file".to_string()),
        username: None,
        expires_at: None,
    };
    let out = build_status_output(invalid, file("/c", true), file("/k", true), 0, None);
    assert!(out.cache_exists && !out.cache_valid);
    assert_eq!(out.cache_state, "invalid");
    let lines = status_lines(&out);
    assert!(lines.contains(&"Cache error: Failed to parse cache file".to_string()));
    assert!(lines.contains(&"Key size: 475 bytes".to_string()));

    let expired = CacheStatus {
        state: CacheState::Expired,
        parse_error: None,
        username: Some("u".to_string()),
        expires_at: Some(1_000),
    };
    let out = build_status_output(expired, file("/c", true), file("/k", false), 5_000, Some("t".to_string()));
    assert_eq!(out.remaining_seconds, Some(0));
    assert!(status_lines(&out).contains(&"Remaining: expired".to_string()));

    let missing = CacheStatus { state: CacheState::Missing, parse_error: None, username: None, expires_at: None };
    let out = build_status_output(missing, file("/c", false), file("/k", false), 5_000, None);
    assert!(!out.cache_exists);
    assert_eq!(
        status_lines(&out),
        vec!["Cache: missing", "Cache path: /c", "Cache file: missing", "Key path: /k", "Key file: missing"]
    );
}

#[test]
fn remaining_seconds_rounds_down() {
    assert_eq!(remaining_seconds(10_999, 0), 10);
    assert_eq!(remaining_seconds(0, 10), 0);
}

#[test]
fn success_reports() {
    let result = DownloadFlowResult { token: "tok".to_string(), source: TokenSource::Cache };
    let mut c = cli();
    c.verbose = true;
    c.print_token = true;
    match handle_success(&c, &result, "/c".to_string(), "/k".to_string()) {
        SuccessReport::Text { stderr, stdout } => {
            assert_eq!(stderr.as_deref(), Some("\u{2713} Using cached token"));
            assert_eq!(stdout.as_deref(), Some("Token: tok"));
        }
        other => panic!("unexpected {:?}", other),
    }
    let login = DownloadFlowResult { token: "tok".to_string(), source: TokenSource::Login };
    match handle_success(&cli(), &login, "/c".to_string(), "/k".to_string()) {
        SuccessReport::Text { stderr, stdout } => assert!(stderr.is_none() && stdout.is_none()),
        other => panic!("unexpected {:?}", other),
    }
    let mut j = cli();
    j.json = true;
    match handle_success(&j, &login, "/c".to_string(), "/k".to_string()) {
        SuccessReport::Json(o) => {
            assert!(o.ok);
            assert_eq!(o.source, "login");
            assert_eq!(o.cache_path, "/c");
            assert_eq!(o.key_path, "/k");
            assert_eq!(o.token, None);
        }
        other => panic!("unexpected {:?}", other),
    }
}

#[test]
fn error_reports() {
    match handle_error(&cli(), "io: Connection refused") {
        ErrorReport::Lines(lines) => assert_eq!(
            lines,
            vec![
                "error: network error: connection to the hpc service failed",
                "hint: use --verbose for step logs",
            ]
        ),
        other => panic!("unexpected {:?}", other),
    }
    let mut v = cli();
    v.verbose = true;
    match handle_error(&v, "io: Connection refused") {
        ErrorReport::Lines(lines) => assert_eq!(
            lines,
            vec![
                "error: network error: connection to the hpc service failed",
                "detail: io: Connection refused",
            ]
        ),
        other => panic!("unexpected {:?}", other),
    }
    match handle_error(&v, "Failed to get token") {
        ErrorReport::Lines(lines) => assert_eq!(lines, vec!["error: Failed to get token"]),
        other => panic!("unexpected {:?}", other),
    }
    let mut j = cli();
    j.json = true;
    match handle_error(&j, "Connection timed out") {
        ErrorReport::Json(o) => {
            assert!(!o.ok);
            assert_eq!(o.error, "network error: request timed out");
            assert_eq!(o.detail.as_deref(), Some("Connection timed out"));
            assert_eq!(o.hint.as_deref(), Some("use --verbose for step logs"));
        }
        other => panic!("unexpected {:?}", other),
    }
}

#[test]
fn file_status_reports_the_facts() {
    let facts = FileFacts {
        mode: Some(0o100600),
        modified: Some((1_700_000_000_000, "2023-11-14 22:13:20".to_string())),
        size: 42,
    };
    let o = file_status(b"/h/.hpckey", Some(facts));
    assert_eq!(o.path, "/h/.hpckey");
    assert!(o.exists);
    assert_eq!(o.mode.as_deref(), Some("600"));
    assert_eq!(o.modified_at_ms, Some(1_700_000_000_000));
    assert_eq!(o.modified_at.as_deref(), Some("2023-11-14 22:13:20"));
    assert_eq!(o.size_bytes, Some(42));
    let none = file_status(b"/h/.hpckey", None);
    assert!(!none.exists);
    assert_eq!(none.path, "/h/.hpckey");
    assert!(none.mode.is_none() && none.modified_at_ms.is_none() && none.modified_at.is_none());
    assert!(none.size_bytes.is_none());
    let unmoded = file_status(b"/x", Some(FileFacts { mode: None, modified: None, size: 0 }));
    assert!(unmoded.exists && unmoded.mode.is_none() && unmoded.modified_at.is_none());
}
