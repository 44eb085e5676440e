//! The short-lived token cache: when a stored token is reused, what is stored,
//! and how the cache is reported.

use vstd::prelude::*;
use crate::text::{opt_view, same_text};
use crate::types::TokenCache;

verus! {

/// How long a stored token is reused: two hours, in milliseconds.
pub const CACHE_TTL_MS: i64 = 7_200_000;

/// The last millisecond that chrono can represent: 31 December 262142,
/// 23:59:59.999 UTC (`DateTime::<Utc>::MAX_UTC`).
pub const LATEST_CLOCK_MS: i64 = 8_210_266_876_799_999;

/// Milliseconds since the Unix epoch, from the system clock (`chrono::Local::now`).
///
/// The value is whatever the clock shows. It lies between the epoch and
/// [`LATEST_CLOCK_MS`], because `chrono::Utc::now`, which `Local::now` reads,
/// panics for a clock set before 1970 and for one past the last date it can
/// represent (`DateTime::from_timestamp(..).unwrap()`) instead of returning.
/// Nothing more is stated of it.
#[verifier::external_body]
pub fn now_millis() -> (ms: i64)
    ensures
        0 <= ms <= LATEST_CLOCK_MS,
{
    chrono::Local::now().timestamp_millis()
}

/// The token that a cache yields for `username` at time `now`: its token when
/// it was stored for that user and has not expired.
pub open spec fn cache_token(cache: TokenCache, username: Seq<char>, now: int) -> Option<Seq<char>> {
    if cache.username@ == username && now < cache.expires_at {
        Some(cache.token@)
    } else {
        None
    }
}

/// What was found at the cache path.
#[derive(Debug, Clone)]
pub enum CacheFile {
    /// There is no readable cache file.
    Missing,
    /// The file exists but is not a cache.
    Invalid,
    /// The file holds this cache.
    Parsed(TokenCache),
}

/// The state of the cache as `--status` reports it.
#[derive(Debug, Clone, Copy, PartialEq, Eq, Structural)]
pub enum CacheState {
    Missing,
    Invalid,
    Expired,
    Valid,
}

/// The cache as `--status` reports it.
#[derive(Debug, Clone)]
pub struct CacheStatus {
    pub state: CacheState,
    pub parse_error: Option<String>,
    pub username: Option<String>,
    pub expires_at: Option<i64>,
}

/// The state of a cache file at time `now`.
pub open spec fn cache_state_spec(file: CacheFile, now: int) -> CacheState {
    match file {
        CacheFile::Missing => CacheState::Missing,
        CacheFile::Invalid => CacheState::Invalid,
        CacheFile::Parsed(c) => if now < c.expires_at {
            CacheState::Valid
        } else {
            CacheState::Expired
        },
    }
}

/// The message that an unparsable cache file is reported with.
pub open spec fn parse_error_text() -> Seq<char> {
    "Failed to parse cache file"@
}

impl CacheState {
    /// The name that `--status` prints for the state.
    pub open spec fn name(self) -> Seq<char> {
        match self {
            CacheState::Missing => "missing"@,
            CacheState::Invalid => "invalid"@,
            CacheState::Expired => "expired"@,
            CacheState::Valid => "valid"@,
        }
    }

    /// The name that `--status` prints for the state.
    pub fn as_str(&self) -> (s: &'static str)
        ensures
            s@ == self.name(),
    {
        match self {
            CacheState::Missing => "missing",
            CacheState::Invalid => "invalid",
            CacheState::Expired => "expired",
            CacheState::Valid => "valid",
        }
    }

    /// Whether a cache file exists.
    pub fn file_exists(&self) -> (b: bool)
        ensures
            b == !(*self is Missing),
    {
        !matches!(self, CacheState::Missing)
    }

    /// Whether the cached token may still be used.
    pub fn is_valid(&self) -> (b: bool)
        ensures
            b == (*self is Valid),
    {
        matches!(self, CacheState::Valid)
    }
}

/// The token that `cache` yields for `username` at time `now`.
pub fn cached_token(cache: &TokenCache, username: &str, now: i64) -> (t: Option<String>)
    ensures
        match t {
            Some(s) => cache_token(*cache, username@, now as int) == Some(s@),
            None => cache_token(*cache, username@, now as int) is None,
        },
{
    if !same_text(cache.username.as_str(), username) {
        return None;
    }
    if now >= cache.expires_at {
        return None;
    }
    Some(cache.token.clone())
}

/// The token to reuse for `username` from what the cache file held, if any,
/// judged against the system clock.
pub fn read_cache(cache: Option<TokenCache>, username: &str) -> (t: Option<String>)
    ensures
        cache is None ==> t is None,
        cache matches Some(c) ==> exists|now: i64| opt_view(t) == cache_token(
            c,
            username@,
            now as int,
        ),
        cache matches Some(c) && c.username@ != username@ ==> t is None,
        t matches Some(s) ==> cache matches Some(c) && c.username@ == username@ && s@ == c.token@,
{
    match cache {
        None => None,
        Some(c) => {
            let now = now_millis();
            let t = cached_token(&c, username, now);
            assert(opt_view(t) == cache_token(c, username@, now as int));
            t
        },
    }
}

/// The cache entry stored for `token` at time `now`, valid for `ttl_ms`.
pub fn new_token_cache(username: &str, token: &str, now: i64, ttl_ms: i64) -> (c: TokenCache)
    requires
        i64::MIN <= now + ttl_ms <= i64::MAX,
    ensures
        c.username@ == username@,
        c.token@ == token@,
        c.created_at == now,
        c.expires_at == now + ttl_ms,
{
    TokenCache {
        username: username.to_owned(),
        token: token.to_owned(),
        expires_at: now + ttl_ms,
        created_at: now,
    }
}

/// The cache entry to store for `token` at clock reading `now`, valid for
/// `ttl_ms`; `None` exactly when the expiry `now + ttl_ms` does not fit an `i64`.
pub fn cache_entry(username: &str, token: &str, now: i64, ttl_ms: i64) -> (c: Option<TokenCache>)
    ensures
        c is None <==> !(i64::MIN <= now + ttl_ms <= i64::MAX),
        c matches Some(e) ==> e.username@ == username@ && e.token@ == token@ && e.created_at == now
            && e.expires_at == now + ttl_ms,
{
    match now.checked_add(ttl_ms) {
        Some(_) => Some(new_token_cache(username, token, now, ttl_ms)),
        None => None,
    }
}

/// The cache entry to store for `token`, stamped with the system clock: the
/// entry of [`cache_entry`] for that clock reading. Its stamp is a clock
/// reading, so there is always an entry for a lifetime such as
/// [`CACHE_TTL_MS`] that cannot carry the latest reading past `i64::MAX`.
pub fn write_cache(username: &str, token: &str, ttl_ms: i64) -> (c: Option<TokenCache>)
    ensures
        c matches Some(e) ==> e.username@ == username@ && e.token@ == token@ && 0 <= e.created_at
            <= LATEST_CLOCK_MS && e.expires_at == e.created_at + ttl_ms,
        c is None ==> ttl_ms > i64::MAX - LATEST_CLOCK_MS,
{
    cache_entry(username, token, now_millis(), ttl_ms)
}

/// The report on a cache file at time `now`.
pub fn cache_status_at(file: &CacheFile, now: i64) -> (s: CacheStatus)
    ensures
        s.state == cache_state_spec(*file, now as int),
        s.parse_error matches Some(e) ==> e@ == parse_error_text(),
        s.parse_error is Some <==> *file is Invalid,
        match *file {
            CacheFile::Parsed(c) => s.username matches Some(u) && u@ == c.username@
                && s.expires_at == Some(c.expires_at),
            _ => s.username is None && s.expires_at is None,
        },
{
    match file {
        CacheFile::Missing => CacheStatus {
            state: CacheState::Missing,
            parse_error: None,
            username: None,
            expires_at: None,
        },
        CacheFile::Invalid => CacheStatus {
            state: CacheState::Invalid,
            parse_error: Some("Failed to parse cache file".to_owned()),
            username: None,
            expires_at: None,
        },
        CacheFile::Parsed(c) => CacheStatus {
            state: if now < c.expires_at {
                CacheState::Valid
            } else {
                CacheState::Expired
            },
            parse_error: None,
            username: Some(c.username.clone()),
            expires_at: Some(c.expires_at),
        },
    }
}

/// The report on a cache file, judged against the system clock.
pub fn get_cache_status(file: &CacheFile) -> (s: CacheStatus)
    ensures
        (s.state is Missing) == (*file is Missing),
        (s.state is Invalid) == (*file is Invalid),
        exists|now: i64| s.state == cache_state_spec(*file, now as int),
        s.parse_error matches Some(e) ==> e@ == parse_error_text(),
        s.parse_error is Some <==> *file is Invalid,
        match *file {
            CacheFile::Parsed(c) => s.username matches Some(u) && u@ == c.username@
                && s.expires_at == Some(c.expires_at),
            _ => s.username is None && s.expires_at is None,
        },
{
    let now = now_millis();
    let s = cache_status_at(file, now);
    assert(s.state == cache_state_spec(*file, now as int));
    s
}

/// Law: a token written to the cache is read back by the same user, and only
/// by that user, until exactly the end of its lifetime.
pub proof fn lemma_write_then_read(
    username: Seq<char>,
    token: Seq<char>,
    now: int,
    ttl_ms: int,
    cache: TokenCache,
    reader: Seq<char>,
    at: int,
)
    requires
        cache.username@ == username,
        cache.token@ == token,
        cache.created_at == now,
        cache.expires_at == now + ttl_ms,
    ensures
        cache_token(cache, reader, at) == (if reader == username && at < now + ttl_ms {
            Some(token)
        } else {
            None
        }),
{
}

/// Law: `--status` calls the cache valid exactly when the cache yields its
/// token to the user it was stored for.
pub proof fn lemma_status_agrees_with_read(cache: TokenCache, now: int)
    ensures
        (cache_state_spec(CacheFile::Parsed(cache), now) is Valid) <==> cache_token(
            cache,
            cache.username@,
            now,
        ) is Some,
        (cache_state_spec(CacheFile::Parsed(cache), now) is Expired) <==> cache_token(
            cache,
            cache.username@,
            now,
        ) is None,
{
}

} // verus!
