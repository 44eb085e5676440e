use ghpc::cache::{
    cache_entry, cache_status_at, cached_token, get_cache_status, new_token_cache, read_cache,
    write_cache,
    CacheFile, CacheState,
};
use ghpc::flow::{DownloadFlow, FlowAction, FlowEvent, TokenSource};
use ghpc::paths::{
    cache_file_path, display_path, key_destination, key_file_path, key_saved_message, path_in_home,
};
use ghpc::logger::Logger;
use ghpc::types::{LoggerOptions, TokenCache};

fn cache(user: &str, expires_at: i64) -> TokenCache {
    TokenCache { username: user.into(), token: "tok".into(), expires_at, created_at: 0 }
}

#[test]
fn cached_token_needs_user_and_time() {
    let c = cache("alice", 1_000);
    assert_eq!(cached_token(&c, "alice", 999).as_deref(), Some("tok"));
    assert_eq!(cached_token(&c, "alice", 1_000), None);
    assert_eq!(cached_token(&c, "bob", 0), None);
    assert_eq!(read_cache(None, "alice"), None);
    assert_eq!(read_cache(Some(cache("alice", i64::MAX)), "alice").as_deref(), Some("tok"));
    assert_eq!(read_cache(Some(cache("alice", i64::MIN)), "alice"), None);
}

#[test]
fn written_cache_reads_back_for_two_hours() {
    let ttl = 2 * 60 * 60 * 1000;
    let c = new_token_cache("alice", "jwt", 1_000, ttl);
    assert_eq!(c.created_at, 1_000);
    assert_eq!(c.expires_at, 1_000 + ttl);
    assert_eq!(cached_token(&c, "alice", 1_000 + ttl - 1).as_deref(), Some("jwt"));
    assert_eq!(cached_token(&c, "alice", 1_000 + ttl), None);
    let fresh = write_cache("alice", "jwt", ttl).unwrap();
    assert_eq!(fresh.expires_at - fresh.created_at, ttl);
    assert_eq!(read_cache(Some(fresh), "alice").as_deref(), Some("jwt"));
}

#[test]
fn cache_states() {
    let s = cache_status_at(&CacheFile::Missing, 0);
    assert_eq!(s.state, CacheState::Missing);
    assert!(!s.state.file_exists());
    assert_eq!(s.state.as_str(), "missing");
    let s = cache_status_at(&CacheFile::Invalid, 0);
    assert_eq!(s.state.as_str(), "invalid");
    assert_eq!(s.parse_error.as_deref(), Some("Failed to parse cache file"));
    assert!(s.state.file_exists() && !s.state.is_valid());
    let s = cache_status_at(&CacheFile::Parsed(cache("u", 10)), 10);
    assert_eq!(s.state.as_str(), "expired");
    assert_eq!(s.username.as_deref(), Some("u"));
    assert_eq!(s.expires_at, Some(10));
    let s = cache_status_at(&CacheFile::Parsed(cache("u", 10)), 9);
    assert_eq!(s.state.as_str(), "valid");
    assert!(s.state.is_valid());
    let s = get_cache_status(&CacheFile::Parsed(cache("u", i64::MAX)));
    assert_eq!(s.state, CacheState::Valid);
}

fn run(force: bool, cached: Option<&str>, reports: Vec<FlowEvent>) -> Vec<String> {
    let (mut flow, mut action) = DownloadFlow::start(force, cached.map(|c| c.to_string()));
    let mut seen = Vec::new();
    let mut reports = reports.into_iter();
    loop {
        seen.push(format!("{:?}", action));
        match action {
            FlowAction::Succeed(_) | FlowAction::FailWithLast => return seen,
            _ => {}
        }
        let event = reports.next().expect("a report");
        assert!(flow.accepts(&event));
        action = flow.step(event);
    }
}

#[test]
fn cached_token_is_used_when_it_works() {
    let seen = run(false, Some("old"), vec![FlowEvent::Downloaded(true)]);
    assert_eq!(seen.len(), 2);
    assert!(seen[0].contains("Download(\"old\")"));
    assert!(seen[1].contains("Cache"));
}

#[test]
fn refused_cached_token_falls_back_to_login() {
    let seen = run(
        false,
        Some("old"),
        vec![
            FlowEvent::Downloaded(false),
            FlowEvent::LoggedIn(Some("new".into())),
            FlowEvent::Downloaded(true),
            FlowEvent::CacheWritten(true),
        ],
    );
    assert_eq!(seen[1], "Login");
    assert_eq!(seen[2], "Download(\"new\")");
    assert_eq!(seen[3], "WriteCache(\"new\")");
    assert!(seen[4].contains("Login") && seen[4].contains("new"));
}

#[test]
fn force_skips_the_cache() {
    let seen = run(true, Some("old"), vec![FlowEvent::LoggedIn(None)]);
    assert_eq!(seen, vec!["Login".to_string(), "FailWithLast".to_string()]);
    let seen = run(false, None, vec![FlowEvent::LoggedIn(Some("t".into())), FlowEvent::Downloaded(false)]);
    assert_eq!(seen.last().unwrap(), "FailWithLast");
    let seen = run(
        false,
        None,
        vec![FlowEvent::LoggedIn(Some("t".into())), FlowEvent::Downloaded(true), FlowEvent::CacheWritten(false)],
    );
    assert_eq!(seen.last().unwrap(), "FailWithLast");
    assert_eq!(TokenSource::Cache.as_str(), "cache");
    assert_eq!(TokenSource::Login.as_str(), "login");
}

#[test]
fn home_paths() {
    assert_eq!(path_in_home(Some(b"/home/a".to_vec()), ".hpckey"), b"/home/a/.hpckey".to_vec());
    assert_eq!(path_in_home(Some(b"/".to_vec()), ".hpckey"), b"/.hpckey".to_vec());
    assert_eq!(path_in_home(Some(Vec::new()), ".hpckey"), b".hpckey".to_vec());
    assert_eq!(path_in_home(None, ".hpc-login-cache.json"), b"~/.hpc-login-cache.json".to_vec());
    assert!(cache_file_path().ends_with(b"/.hpc-login-cache.json"));
    assert!(key_file_path().ends_with(b"/.hpckey"));
    assert_eq!(key_destination(Some(b"/h".to_vec())).unwrap(), b"/h/.hpckey".to_vec());
    assert_eq!(key_destination(None).unwrap_err().message(), "Failed to determine home directory");
    assert_eq!(key_saved_message(b"/h/.hpckey"), "Private key saved to: /h/.hpckey");
}

#[test]
fn logger_levels() {
    let quiet = Logger::new(LoggerOptions { quiet: true, verbose: false, json: false });
    assert_eq!(quiet.info("saved"), None);
    assert_eq!(quiet.debug("step"), None);
    let verbose = Logger::new(LoggerOptions { quiet: false, verbose: true, json: false });
    assert_eq!(verbose.info("saved").as_deref(), Some("saved"));
    assert_eq!(verbose.debug("step").as_deref(), Some("step"));
    let json = Logger::new(LoggerOptions { quiet: false, verbose: true, json: true });
    assert_eq!(json.info("saved"), None);
    assert_eq!(json.debug("step"), None);
}

#[test]
fn cache_entry_is_stamped_with_the_reading() {
    let e = cache_entry("alice", "jwt", 1_000, 7_200_000).unwrap();
    assert_eq!(e.username, "alice");
    assert_eq!(e.token, "jwt");
    assert_eq!(e.created_at, 1_000);
    assert_eq!(e.expires_at, 7_201_000);
    assert!(cache_entry("alice", "jwt", i64::MAX - 5, 6).is_none());
    assert!(cache_entry("alice", "jwt", i64::MAX - 5, 5).is_some());
    let fresh = write_cache("bob", "t", 0).unwrap();
    assert!(fresh.created_at > 1_600_000_000_000);
    assert_eq!(fresh.expires_at, fresh.created_at);
}

#[test]
fn home_directory_that_is_not_utf8_is_kept_exactly() {
    let home = vec![b'/', b'h', 0xff, b'o'];
    let path = path_in_home(Some(home), ".hpckey");
    assert_eq!(path, vec![b'/', b'h', 0xff, b'o', b'/', b'.', b'h', b'p', b'c', b'k', b'e', b'y']);
    assert_eq!(display_path(&path), "/h\u{fffd}o/.hpckey");
    assert_eq!(key_saved_message(&path), "Private key saved to: /h\u{fffd}o/.hpckey");
    assert_eq!(display_path(b"/home/a/.hpckey"), "/home/a/.hpckey");
}
