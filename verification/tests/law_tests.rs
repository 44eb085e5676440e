use ghpc::cache::{cache_status_at, cached_token, CacheFile, CacheState};
use ghpc::crypto::base64_to_pem;
use ghpc::login::{build_login_body, extract_execution_token, url_encode};
use ghpc::report::format_remaining_seconds;
use ghpc::types::TokenCache;

#[test]
fn encoded_values_cannot_add_form_fields() {
    let encoded = url_encode("a&b=c d%e\u{e9}");
    assert_eq!(encoded, "a%26b%3Dc%20d%25e%C3%A9");
    assert!(!encoded.contains('&') && !encoded.contains('='));
    let body = build_login_body("x&password=evil", "p", "e");
    assert_eq!(body.matches("&password=").count(), 1);
}

#[test]
fn captured_token_stays_inside_its_quotes() {
    let token = extract_execution_token("name=\"execution\" value=\"ab'c\" trailing\"").unwrap();
    assert_eq!(token, "ab'c");
    assert!(!token.contains('"'));
}

#[test]
fn pem_lines_rebuild_the_key() {
    let key: String = (0..150).map(|i| (b'A' + (i % 26) as u8) as char).collect();
    let pem = base64_to_pem(&key);
    let body: String = pem
        .lines()
        .filter(|l| !l.starts_with("-----"))
        .collect();
    assert_eq!(body, key);
    assert!(pem.lines().all(|l| l.len() <= 64 || l.starts_with("-----")));
}

#[test]
fn status_is_valid_exactly_when_the_token_is_reused() {
    let cache = TokenCache { username: "u".into(), token: "t".into(), expires_at: 100, created_at: 0 };
    for now in [0, 99, 100, 101] {
        let state = cache_status_at(&CacheFile::Parsed(cache.clone()), now).state;
        assert_eq!(state == CacheState::Valid, cached_token(&cache, "u", now).is_some());
        assert_eq!(state == CacheState::Expired, cached_token(&cache, "u", now).is_none());
    }
}

#[test]
fn remaining_time_tokens_add_up() {
    for seconds in [1i64, 59, 60, 61, 3_599, 3_600, 86_399, 86_400, 90_061, 7_200, 1_000_000] {
        let text = format_remaining_seconds(seconds);
        let mut total = 0i64;
        let mut last_rank = -1i32;
        for token in text.split(' ') {
            let (count, unit) = token.split_at(token.len() - 1);
            let n: i64 = count.parse().unwrap();
            assert!(n >= 1);
            let (rank, size, bound) = match unit {
                "d" => (0, 86_400, i64::MAX),
                "h" => (1, 3_600, 24),
                "m" => (2, 60, 60),
                "s" => (3, 1, 60),
                other => panic!("unexpected unit {}", other),
            };
            assert!(rank > last_rank && n < bound);
            last_rank = rank;
            total += n * size;
        }
        assert_eq!(total, seconds);
    }
    assert_eq!(format_remaining_seconds(90_061), "1d 1h 1m 1s");
}
