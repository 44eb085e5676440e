//! What the command reports: normalised error messages, durations and file modes.

use vstd::prelude::*;
use crate::cache::CacheStatus;
use crate::cli::Cli;
use crate::flow::{DownloadFlowResult, TokenSource};
use crate::paths::{display_path, utf8_lossy};
use crate::text::{
    ascii_lower, chars_of, contains, decimal, decimal_value, digit, digit_char, has_infix, has_prefix,
    is_digit_char, join, lemma_decimal_reads_back, opt_view, push_all, push_decimal, push_str, starts_with, string_of, to_ascii_lower,
};

verus! {

/// Messages of the library's own errors that are reported as they are.
pub open spec fn is_passthrough(raw: Seq<char>) -> bool {
    ||| starts_with(raw, "Failed to read password"@)
    ||| starts_with(raw, "Password read from stdin was empty"@)
    ||| starts_with(raw, "Username is required when using --password-stdin"@)
    ||| starts_with(raw, "Failed to get execution token"@)
    ||| starts_with(raw, "Failed to get token"@)
    ||| starts_with(raw, "Failed to get private key"@)
    ||| starts_with(raw, "Login failed, status:"@)
}

/// The short message and optional raw detail that a failure is reported with.
///
/// Known failures of the login flow are kept verbatim; transport and local
/// failures are normalised to a short message that keeps the raw text as detail.
pub open spec fn classify_spec(raw: Seq<char>) -> (Seq<char>, Option<Seq<char>>) {
    let lower = ascii_lower(raw);
    if is_passthrough(raw) {
        (raw, None)
    } else if contains(lower, "dns failed"@) || contains(lower, "failed to lookup address information"@) {
        ("network error: failed to resolve hpc.cugb.edu.cn"@, Some(raw))
    } else if contains(lower, "timed out"@) {
        ("network error: request timed out"@, Some(raw))
    } else if contains(lower, "tls"@) || contains(lower, "ssl"@) || contains(lower, "certificate"@) {
        ("network error: tls handshake failed"@, Some(raw))
    } else if contains(lower, "connection refused"@) || contains(lower, "connection reset"@)
        || contains(lower, "network is unreachable"@) || contains(lower, "broken pipe"@) {
        ("network error: connection to the hpc service failed"@, Some(raw))
    } else if starts_with(raw, "https://"@) || starts_with(raw, "http://"@) {
        ("network error: request to the hpc service failed"@, Some(raw))
    } else if contains(lower, "failed to determine home directory"@) {
        ("local error: could not determine home directory"@, Some(raw))
    } else if contains(lower, "permission denied"@) {
        ("local error: permission denied while writing local files"@, Some(raw))
    } else {
        (raw, None)
    }
}

/// Law: a reported failure never loses its text. Either the raw text is the
/// message and there is no detail, or the message is a short normalised one
/// and the raw text is kept whole as the detail.
pub proof fn lemma_classify_keeps_raw(raw: Seq<char>)
    ensures
        classify_spec(raw) == (raw, None::<Seq<char>>) || classify_spec(raw).1 == Some(raw),
        is_passthrough(raw) ==> classify_spec(raw) == (raw, None::<Seq<char>>),
{
}

fn lit(s: &str) -> (v: Vec<char>)
    ensures
        v@ == s@,
{
    chars_of(s)
}

fn lower_has(lower: &Vec<char>, p: &str) -> (b: bool)
    ensures
        b == contains(lower@, p@),
{
    has_infix(lower, &lit(p))
}

fn raw_starts(raw: &Vec<char>, p: &str) -> (b: bool)
    ensures
        b == starts_with(raw@, p@),
{
    has_prefix(raw, &lit(p))
}

/// Turns the text of a failure into the message shown to the user and the raw
/// detail that `--verbose` adds.
pub fn classify_error(raw: &str) -> (res: (String, Option<String>))
    ensures
        (res.0@, match res.1 {
            Some(d) => Some(d@),
            None => None,
        }) == classify_spec(raw@),
{
    let r = chars_of(raw);
    let lower = to_ascii_lower(&r);
    if raw_starts(&r, "Failed to read password") || raw_starts(&r, "Password read from stdin was empty")
        || raw_starts(&r, "Username is required when using --password-stdin")
        || raw_starts(&r, "Failed to get execution token") || raw_starts(&r, "Failed to get token")
        || raw_starts(&r, "Failed to get private key") || raw_starts(&r, "Login failed, status:") {
        return (raw.to_owned(), None);
    }
    let (msg, keep): (&str, bool) = if lower_has(&lower, "dns failed") || lower_has(
        &lower,
        "failed to lookup address information",
    ) {
        ("network error: failed to resolve hpc.cugb.edu.cn", true)
    } else if lower_has(&lower, "timed out") {
        ("network error: request timed out", true)
    } else if lower_has(&lower, "tls") || lower_has(&lower, "ssl") || lower_has(&lower, "certificate") {
        ("network error: tls handshake failed", true)
    } else if lower_has(&lower, "connection refused") || lower_has(&lower, "connection reset")
        || lower_has(&lower, "network is unreachable") || lower_has(&lower, "broken pipe") {
        ("network error: connection to the hpc service failed", true)
    } else if raw_starts(&r, "https://") || raw_starts(&r, "http://") {
        ("network error: request to the hpc service failed", true)
    } else if lower_has(&lower, "failed to determine home directory") {
        ("local error: could not determine home directory", true)
    } else if lower_has(&lower, "permission denied") {
        ("local error: permission denied while writing local files", true)
    } else {
        (raw, false)
    };
    if keep {
        (msg.to_owned(), Some(raw.to_owned()))
    } else {
        (raw.to_owned(), None)
    }
}


/// The parts `"<n><unit>"` of a duration, one for each unit whose count is not zero.
pub open spec fn unit_part(n: int, unit: char) -> Seq<Seq<char>> {
    if n > 0 {
        seq![decimal(n as nat).push(unit)]
    } else {
        seq![]
    }
}

/// Days, hours, minutes and seconds of a positive number of seconds.
pub open spec fn duration_parts(seconds: int) -> Seq<Seq<char>> {
    unit_part(seconds / 86_400, 'd') + unit_part((seconds % 86_400) / 3_600, 'h') + unit_part(
        (seconds % 3_600) / 60,
        'm',
    ) + unit_part(seconds % 60, 's')
}

/// How a remaining lifetime is shown: `0s` when nothing is left, else its
/// non-zero days, hours, minutes and seconds separated by spaces.
pub open spec fn remaining_text(seconds: int) -> Seq<char> {
    if seconds <= 0 {
        "0s"@
    } else {
        join(duration_parts(seconds), seq![' '])
    }
}

fn push_part(parts: &mut Vec<Vec<char>>, n: i64, unit: char)
    requires
        n >= 0,
    ensures
        final(parts)@.map_values(|p: Vec<char>| p@) == old(parts)@.map_values(|p: Vec<char>| p@)
            + unit_part(n as int, unit),
{
    let ghost before = parts@.map_values(|p: Vec<char>| p@);
    if n > 0 {
        let mut p: Vec<char> = Vec::new();
        push_decimal(&mut p, n as u128);
        p.push(unit);
        parts.push(p);
        assert(parts@.map_values(|p: Vec<char>| p@) =~= before + unit_part(n as int, unit));
    } else {
        assert(parts@.map_values(|p: Vec<char>| p@) =~= before + unit_part(n as int, unit));
    }
}

fn join_parts(parts: &Vec<Vec<char>>, sep: char) -> (r: Vec<char>)
    ensures
        r@ == join(parts@.map_values(|p: Vec<char>| p@), seq![sep]),
{
    let ghost views = parts@.map_values(|p: Vec<char>| p@);
    let mut r: Vec<char> = Vec::new();
    let mut i: usize = 0;
    while i < parts.len()
        invariant
            i <= parts.len(),
            views == parts@.map_values(|p: Vec<char>| p@),
            r@ == join(views.take(i as int), seq![sep]),
        decreases parts.len() - i,
    {
        if i > 0 {
            r.push(sep);
        }
        push_all(&mut r, &parts[i]);
        i = i + 1;
        assert(views.take(i as int).drop_last() =~= views.take((i - 1) as int));
        assert(views.take(i as int).last() == parts@[i - 1]@);
        if i == 1 {
            assert(views.take((i - 1) as int) =~= Seq::<Seq<char>>::empty());
            assert(r@ =~= views.take(i as int)[0]);
        }
    }
    assert(views.take(i as int) =~= views);
    r
}

/// Renders the remaining lifetime of the cached token, as in `1h 23m 45s`.
pub fn format_remaining_seconds(seconds: i64) -> (s: String)
    ensures
        s@ == remaining_text(seconds as int),
{
    if seconds <= 0 {
        return "0s".to_owned();
    }
    let days = seconds / 86_400;
    let hours = (seconds % 86_400) / 3_600;
    let minutes = (seconds % 3_600) / 60;
    let secs = seconds % 60;
    let mut parts: Vec<Vec<char>> = Vec::new();
    assert(parts@.map_values(|p: Vec<char>| p@) =~= Seq::<Seq<char>>::empty());
    push_part(&mut parts, days, 'd');
    push_part(&mut parts, hours, 'h');
    push_part(&mut parts, minutes, 'm');
    push_part(&mut parts, secs, 's');
    assert(parts@.map_values(|p: Vec<char>| p@) =~= duration_parts(seconds as int));
    let joined = join_parts(&parts, ' ');
    string_of(&joined)
}

/// Law: the shown parts account for the whole duration; days, hours, minutes
/// and seconds recombine to the number of seconds, each within its range.
pub proof fn lemma_duration_parts_recombine(seconds: int)
    requires
        seconds > 0,
    ensures
        (seconds / 86_400) * 86_400 + ((seconds % 86_400) / 3_600) * 3_600 + ((seconds % 3_600)
            / 60) * 60 + seconds % 60 == seconds,
        0 <= (seconds % 86_400) / 3_600 < 24,
        0 <= (seconds % 3_600) / 60 < 60,
        0 <= seconds % 60 < 60,
        duration_parts(seconds).len() > 0,
{
    assert(seconds % 86_400 == (seconds % 86_400 / 3_600) * 3_600 + seconds % 3_600) by (nonlinear_arith)
        requires seconds > 0;
    assert(seconds % 3_600 == (seconds % 3_600 / 60) * 60 + seconds % 60) by (nonlinear_arith)
        requires seconds > 0;
    assert(seconds == (seconds / 86_400) * 86_400 + seconds % 86_400) by (nonlinear_arith)
        requires seconds > 0;
    assert((seconds % 86_400) / 3_600 < 24) by (nonlinear_arith)
        requires seconds > 0;
    assert((seconds % 3_600) / 60 < 60) by (nonlinear_arith)
        requires seconds > 0;
}

/// Seconds in one unit of a duration token: `d`, `h`, `m` or `s`.
pub open spec fn unit_seconds(u: char) -> int {
    if u == 'd' {
        86_400
    } else if u == 'h' {
        3_600
    } else if u == 'm' {
        60
    } else if u == 's' {
        1
    } else {
        0
    }
}

/// The place of a unit in the order `d`, `h`, `m`, `s`.
pub open spec fn unit_rank(u: char) -> int {
    if u == 'd' {
        0
    } else if u == 'h' {
        1
    } else if u == 'm' {
        2
    } else if u == 's' {
        3
    } else {
        4
    }
}

/// The count of a token `<n><unit>`.
pub open spec fn token_count(t: Seq<char>) -> nat {
    decimal_value(t.drop_last())
}

/// A token `<n><unit>`: digits, then one of the units `d`, `h`, `m`, `s`; a
/// count of at least one, and below 24 for hours and below 60 for minutes and
/// seconds.
pub open spec fn duration_token(t: Seq<char>) -> bool {
    &&& t.len() >= 2
    &&& forall|k: int| 0 <= k < t.len() - 1 ==> is_digit_char(#[trigger] t[k])
    &&& unit_rank(t.last()) < 4
    &&& token_count(t) >= 1
    &&& t.last() == 'h' ==> token_count(t) < 24
    &&& (t.last() == 'm' || t.last() == 's') ==> token_count(t) < 60
}

/// Tokens whose units come in strictly increasing order.
pub open spec fn units_ascending(tokens: Seq<Seq<char>>) -> bool {
    forall|i: int, j: int|
        0 <= i < j < tokens.len() ==> unit_rank(#[trigger] tokens[i].last()) < unit_rank(
            #[trigger] tokens[j].last(),
        )
}

/// The seconds that tokens add up to: each count times its unit.
pub open spec fn tokens_total(tokens: Seq<Seq<char>>) -> int
    decreases tokens.len(),
{
    if tokens.len() == 0 {
        0
    } else {
        tokens_total(tokens.drop_last()) + token_count(tokens.last()) * unit_seconds(
            tokens.last().last(),
        )
    }
}

proof fn lemma_tokens_total_append(a: Seq<Seq<char>>, b: Seq<Seq<char>>)
    ensures
        tokens_total(a + b) == tokens_total(a) + tokens_total(b),
    decreases b.len(),
{
    if b.len() == 0 {
        assert(a + b =~= a);
    } else {
        lemma_tokens_total_append(a, b.drop_last());
        assert((a + b).drop_last() =~= a + b.drop_last());
        assert((a + b).last() == b.last());
    }
}

proof fn lemma_unit_part_token(n: int, u: char)
    requires
        n >= 0,
        unit_rank(u) < 4,
        u == 'h' ==> n < 24,
        (u == 'm' || u == 's') ==> n < 60,
    ensures
        tokens_total(unit_part(n, u)) == n * unit_seconds(u),
        forall|i: int| 0 <= i < unit_part(n, u).len() ==> duration_token(#[trigger] unit_part(n, u)[i])
            && unit_part(n, u)[i].last() == u,
        unit_part(n, u).len() <= 1,
{
    if n > 0 {
        let t = decimal(n as nat).push(u);
        lemma_decimal_reads_back(n as nat);
        assert(t.drop_last() =~= decimal(n as nat));
        assert(unit_part(n, u).drop_last() =~= Seq::<Seq<char>>::empty());
        assert(tokens_total(Seq::<Seq<char>>::empty()) == 0);
        assert forall|k: int| 0 <= k < t.len() - 1 implies is_digit_char(#[trigger] t[k]) by {
            assert(t[k] == decimal(n as nat)[k]);
        }
        assert(duration_token(t));
    } else {
        assert(tokens_total(unit_part(n, u)) == 0);
    }
}

proof fn lemma_append_unit(a: Seq<Seq<char>>, n: int, u: char)
    requires
        n >= 0,
        unit_rank(u) < 4,
        u == 'h' ==> n < 24,
        (u == 'm' || u == 's') ==> n < 60,
        units_ascending(a),
        forall|i: int| 0 <= i < a.len() ==> duration_token(#[trigger] a[i]),
        forall|i: int| 0 <= i < a.len() ==> unit_rank(#[trigger] a[i].last()) < unit_rank(u),
    ensures
        units_ascending(a + unit_part(n, u)),
        forall|i: int| 0 <= i < (a + unit_part(n, u)).len() ==> duration_token(
            #[trigger] (a + unit_part(n, u))[i],
        ),
        forall|i: int|
            0 <= i < (a + unit_part(n, u)).len() ==> unit_rank(#[trigger] (a + unit_part(n, u))[i].last())
                <= unit_rank(u),
        tokens_total(a + unit_part(n, u)) == tokens_total(a) + n * unit_seconds(u),
{
    lemma_unit_part_token(n, u);
    lemma_tokens_total_append(a, unit_part(n, u));
    let b = a + unit_part(n, u);
    assert forall|i: int| 0 <= i < b.len() implies duration_token(#[trigger] b[i]) && unit_rank(b[i].last())
        <= unit_rank(u) by {
        if i >= a.len() {
            assert(b[i] == unit_part(n, u)[i - a.len()]);
        } else {
            assert(b[i] == a[i]);
        }
    }
    assert forall|i: int, j: int| 0 <= i < j < b.len() implies unit_rank(#[trigger] b[i].last()) < unit_rank(
        #[trigger] b[j].last(),
    ) by {
        if j >= a.len() {
            assert(b[j] == unit_part(n, u)[j - a.len()]);
            assert(b[i] == a[i]);
        } else {
            assert(b[i] == a[i]);
            assert(b[j] == a[j]);
        }
    }
}

/// Law: a remaining lifetime of `seconds > 0` is shown as space-separated
/// tokens `<n><unit>`, none holding a space; their units come in the order
/// `d`, `h`, `m`, `s`, each at most once; every count is at least one, hours
/// stay below 24 and minutes and seconds below 60; and the counts times their
/// units add up to `seconds`.
pub proof fn lemma_remaining_tokens(seconds: int)
    requires
        seconds > 0,
    ensures
        ({
            let tokens = duration_parts(seconds);
            &&& remaining_text(seconds) == join(tokens, seq![' '])
            &&& tokens.len() >= 1
            &&& forall|i: int| 0 <= i < tokens.len() ==> duration_token(#[trigger] tokens[i])
            &&& forall|i: int, k: int|
                0 <= i < tokens.len() && 0 <= k < tokens[i].len() ==> #[trigger] tokens[i][k] != ' '
            &&& units_ascending(tokens)
            &&& tokens_total(tokens) == seconds
        }),
{
    lemma_duration_parts_recombine(seconds);
    let d = seconds / 86_400;
    let h = (seconds % 86_400) / 3_600;
    let m = (seconds % 3_600) / 60;
    let s = seconds % 60;
    let e = Seq::<Seq<char>>::empty();
    assert(tokens_total(e) == 0);
    lemma_append_unit(e, d, 'd');
    let p1 = e + unit_part(d, 'd');
    lemma_append_unit(p1, h, 'h');
    let p2 = p1 + unit_part(h, 'h');
    lemma_append_unit(p2, m, 'm');
    let p3 = p2 + unit_part(m, 'm');
    lemma_append_unit(p3, s, 's');
    let p4 = p3 + unit_part(s, 's');
    assert(e + unit_part(d, 'd') =~= unit_part(d, 'd'));
    assert(p4 =~= duration_parts(seconds));
    let tokens = duration_parts(seconds);
    assert forall|i: int, k: int| 0 <= i < tokens.len() && 0 <= k < tokens[i].len() implies #[trigger] tokens[i][k]
        != ' ' by {
        assert(duration_token(tokens[i]));
        if k < tokens[i].len() - 1 {
            assert(is_digit_char(tokens[i][k]));
        }
    }
}

/// The three octal digits of a permission mode, as `{:03o}` shows `mode & 0o777`.
pub open spec fn mode_text(mode: u32) -> Seq<char> {
    let m = (mode & 0x1ff) as nat;
    seq![digit(m / 64), digit((m / 8) % 8), digit(m % 8)]
}

/// Renders the permission bits of a file mode, as in `600`.
pub fn format_file_mode(mode: u32) -> (s: String)
    ensures
        s@ == mode_text(mode),
{
    let m = mode & 0x1ff;
    assert(mode & 0x1ff <= 511) by (bit_vector);
    let mut v: Vec<char> = Vec::new();
    v.push(digit_char((m / 64) as u8));
    v.push(digit_char(((m / 8) % 8) as u8));
    v.push(digit_char((m % 8) as u8));
    string_of(&v)
}

/// What `--status` reports about one file.
#[derive(Debug, Clone)]
pub struct FileStatusOutput {
    pub path: String,
    pub exists: bool,
    pub mode: Option<String>,
    pub modified_at_ms: Option<i64>,
    pub modified_at: Option<String>,
    pub size_bytes: Option<u64>,
}

/// What the file system says of a file that exists: its permission bits
/// where the platform has them, its modification time (milliseconds and the
/// local-time text) where known, and its size in bytes.
#[derive(Debug, Clone)]
pub struct FileFacts {
    pub mode: Option<u32>,
    pub modified: Option<(i64, String)>,
    pub size: u64,
}

/// What `--status` reports about the file at `path` (shown lossily as text),
/// given its facts, or `None` when there is no such file.
pub fn file_status(path: &[u8], facts: Option<FileFacts>) -> (o: FileStatusOutput)
    ensures
        o.path@ == utf8_lossy(path@),
        o.exists == facts is Some,
        match facts {
            Some(f) => {
                &&& (match f.mode {
                    Some(m) => o.mode matches Some(t) && t@ == mode_text(m),
                    None => o.mode is None,
                })
                &&& (match f.modified {
                    Some((ms, text)) => o.modified_at_ms == Some(ms) && (o.modified_at matches Some(t)
                        && t@ == text@),
                    None => o.modified_at_ms is None && o.modified_at is None,
                })
                &&& o.size_bytes == Some(f.size)
            },
            None => o.mode is None && o.modified_at_ms is None && o.modified_at is None
                && o.size_bytes is None,
        },
{
    let shown = display_path(path);
    match facts {
        Some(f) => {
            let mode = match f.mode {
                Some(m) => Some(format_file_mode(m)),
                None => None,
            };
            let (modified_at_ms, modified_at) = match f.modified {
                Some((ms, text)) => (Some(ms), Some(text)),
                None => (None, None),
            };
            FileStatusOutput {
                path: shown,
                exists: true,
                mode,
                modified_at_ms,
                modified_at,
                size_bytes: Some(f.size),
            }
        },
        None => FileStatusOutput {
            path: shown,
            exists: false,
            mode: None,
            modified_at_ms: None,
            modified_at: None,
            size_bytes: None,
        },
    }
}

/// What `--status` reports.
#[derive(Debug, Clone)]
pub struct StatusOutput {
    pub ok: bool,
    pub cache_state: String,
    pub cache_exists: bool,
    pub cache_valid: bool,
    pub cache_parse_error: Option<String>,
    pub username: Option<String>,
    pub expires_at_ms: Option<i64>,
    pub expires_at: Option<String>,
    pub remaining_seconds: Option<i64>,
    pub cache: FileStatusOutput,
    pub key: FileStatusOutput,
}

/// Whole seconds until `expires_at`, none when it has passed.
pub open spec fn remaining_spec(expires_at: int, now: int) -> int {
    if expires_at - now > 0 {
        (expires_at - now) / 1000
    } else {
        0
    }
}

/// Whole seconds until `expires_at` (milliseconds), zero when it has passed.
pub fn remaining_seconds(expires_at: i64, now: i64) -> (r: i64)
    requires
        i64::MIN <= expires_at - now <= i64::MAX,
    ensures
        r == remaining_spec(expires_at as int, now as int),
{
    let d = expires_at - now;
    if d > 0 {
        d / 1000
    } else {
        0
    }
}

/// The expiry of a cache can be compared with `now` without overflow.
pub open spec fn comparable(status: CacheStatus, now: int) -> bool {
    status.expires_at matches Some(e) ==> i64::MIN <= e - now <= i64::MAX
}

/// The `--status` report from the cache state, the two files' reports, the
/// clock, and the expiry shown as local time.
pub fn build_status_output(
    cache_status: CacheStatus,
    cache: FileStatusOutput,
    key: FileStatusOutput,
    now: i64,
    expires_text: Option<String>,
) -> (o: StatusOutput)
    requires
        comparable(cache_status, now as int),
    ensures
        o.ok,
        o.cache_state@ == cache_status.state.name(),
        o.cache_exists == !(cache_status.state is Missing),
        o.cache_valid == (cache_status.state is Valid),
        o.cache_parse_error == cache_status.parse_error,
        o.username == cache_status.username,
        o.expires_at_ms == cache_status.expires_at,
        o.expires_at == (if cache_status.expires_at is Some { expires_text } else { None }),
        o.remaining_seconds == match cache_status.expires_at {
            Some(e) => Some(remaining_spec(e as int, now as int) as i64),
            None => None,
        },
        o.cache == cache,
        o.key == key,
{
    let remaining = match cache_status.expires_at {
        Some(e) => Some(remaining_seconds(e, now)),
        None => None,
    };
    let shown = match cache_status.expires_at {
        Some(_) => expires_text,
        None => None,
    };
    StatusOutput {
        ok: true,
        cache_state: cache_status.state.as_str().to_owned(),
        cache_exists: cache_status.state.file_exists(),
        cache_valid: cache_status.state.is_valid(),
        cache_parse_error: cache_status.parse_error,
        username: cache_status.username,
        expires_at_ms: cache_status.expires_at,
        expires_at: shown,
        remaining_seconds: remaining,
        cache,
        key,
    }
}

/// A line `prefix + value` when there is a value.
pub open spec fn opt_line(prefix: Seq<char>, value: Option<Seq<char>>) -> Seq<Seq<char>> {
    match value {
        Some(v) => seq![prefix + v],
        None => seq![],
    }
}

/// `present` or `missing`.
pub open spec fn presence(exists: bool) -> Seq<char> {
    if exists {
        "present"@
    } else {
        "missing"@
    }
}

/// A size as `<n> bytes`.
pub open spec fn size_text(size: Option<u64>) -> Option<Seq<char>> {
    match size {
        Some(n) => Some(decimal(n as nat) + " bytes"@),
        None => None,
    }
}

/// The lines about one file: its mode, modification time and size, when
/// known, each after its label.
pub open spec fn file_detail_lines(
    mode_label: Seq<char>,
    modified_label: Seq<char>,
    size_label: Seq<char>,
    f: FileStatusOutput,
) -> Seq<Seq<char>> {
    opt_line(mode_label, opt_view(f.mode)) + opt_line(modified_label, opt_view(f.modified_at))
        + opt_line(size_label, size_text(f.size_bytes))
}

/// The remaining lifetime as `--status` shows it: spelled out while the
/// cache is valid, else `expired`.
pub open spec fn remaining_line_text(valid: bool, remaining: Option<i64>) -> Option<Seq<char>> {
    match remaining {
        Some(r) => Some(if valid { remaining_text(r as int) } else { "expired"@ }),
        None => None,
    }
}

/// The text `--status` prints, line by line.
pub open spec fn status_lines_spec(o: StatusOutput) -> Seq<Seq<char>> {
    seq!["Cache: "@ + o.cache_state@].push("Cache path: "@ + o.cache.path@).push(
        "Cache file: "@ + presence(o.cache.exists),
    ) + file_detail_lines("Cache mode: "@, "Cache modified: "@, "Cache size: "@, o.cache) + opt_line(
        "Username: "@,
        opt_view(o.username),
    ) + opt_line("Expires: "@, opt_view(o.expires_at)) + opt_line(
        "Remaining: "@,
        remaining_line_text(o.cache_valid, o.remaining_seconds),
    ) + opt_line("Cache error: "@, opt_view(o.cache_parse_error))
        + seq!["Key path: "@ + o.key.path@, "Key file: "@ + presence(o.key.exists)]
        + file_detail_lines("Key mode: "@, "Key modified: "@, "Key size: "@, o.key)
}

/// The texts of lines.
pub open spec fn line_views(lines: Seq<String>) -> Seq<Seq<char>> {
    lines.map_values(|l: String| l@)
}

fn line2(prefix: &str, value: &str) -> (s: String)
    ensures
        s@ == prefix@ + value@,
{
    let mut v: Vec<char> = Vec::new();
    push_str(&mut v, prefix);
    push_str(&mut v, value);
    string_of(&v)
}

fn push_line(lines: &mut Vec<String>, line: String)
    ensures
        line_views(final(lines)@) == line_views(old(lines)@).push(line@),
{
    let ghost before = line_views(lines@);
    lines.push(line);
    assert(line_views(lines@) =~= before.push(line@));
}

fn push_opt(lines: &mut Vec<String>, prefix: &str, value: &Option<String>)
    ensures
        line_views(final(lines)@) == line_views(old(lines)@) + opt_line(prefix@, opt_view(*value)),
{
    let ghost before = line_views(lines@);
    match value {
        Some(v) => {
            push_line(lines, line2(prefix, v.as_str()));
            assert(line_views(lines@) =~= before + opt_line(prefix@, opt_view(*value)));
        },
        None => {
            assert(line_views(lines@) =~= before + opt_line(prefix@, opt_view(*value)));
        },
    }
}

fn size_string(size: &Option<u64>) -> (s: Option<String>)
    ensures
        opt_view(s) == size_text(*size),
{
    match size {
        Some(n) => {
            let mut v: Vec<char> = Vec::new();
            push_decimal(&mut v, *n as u128);
            push_str(&mut v, " bytes");
            Some(string_of(&v))
        },
        None => None,
    }
}

fn push_file_details(lines: &mut Vec<String>, mode_label: &str, modified_label: &str, size_label: &str, f: &FileStatusOutput)
    ensures
        line_views(final(lines)@) == line_views(old(lines)@) + file_detail_lines(
            mode_label@,
            modified_label@,
            size_label@,
            *f,
        ),
{
    let ghost start = line_views(lines@);
    push_opt(lines, mode_label, &f.mode);
    push_opt(lines, modified_label, &f.modified_at);
    push_opt(lines, size_label, &size_string(&f.size_bytes));
    assert(line_views(lines@) =~= start + file_detail_lines(mode_label@, modified_label@, size_label@, *f));
}

fn presence_text(exists: bool) -> (s: &'static str)
    ensures
        s@ == presence(exists),
{
    if exists {
        "present"
    } else {
        "missing"
    }
}

/// The text `--status` prints, line by line.
pub fn status_lines(o: &StatusOutput) -> (lines: Vec<String>)
    ensures
        line_views(lines@) == status_lines_spec(*o),
{
    let mut lines: Vec<String> = Vec::new();
    push_line(&mut lines, line2("Cache: ", o.cache_state.as_str()));
    assert(line_views(lines@) =~= seq!["Cache: "@ + o.cache_state@]);
    push_line(&mut lines, line2("Cache path: ", o.cache.path.as_str()));
    push_line(&mut lines, line2("Cache file: ", presence_text(o.cache.exists)));
    push_file_details(&mut lines, "Cache mode: ", "Cache modified: ", "Cache size: ", &o.cache);
    push_opt(&mut lines, "Username: ", &o.username);
    push_opt(&mut lines, "Expires: ", &o.expires_at);
    let remaining = match o.remaining_seconds {
        Some(r) => Some(if o.cache_valid { format_remaining_seconds(r) } else { "expired".to_owned() }),
        None => None,
    };
    assert(opt_view(remaining) == remaining_line_text(o.cache_valid, o.remaining_seconds));
    push_opt(&mut lines, "Remaining: ", &remaining);
    push_opt(&mut lines, "Cache error: ", &o.cache_parse_error);
    let ghost mid = line_views(lines@);
    push_line(&mut lines, line2("Key path: ", o.key.path.as_str()));
    push_line(&mut lines, line2("Key file: ", presence_text(o.key.exists)));
    assert(line_views(lines@) =~= mid + seq!["Key path: "@ + o.key.path@, "Key file: "@ + presence(o.key.exists)]);
    push_file_details(&mut lines, "Key mode: ", "Key modified: ", "Key size: ", &o.key);
    lines
}

/// What a successful run prints in `--json` mode.
#[derive(Debug, Clone)]
pub struct SuccessOutput {
    pub ok: bool,
    pub source: String,
    pub cache_path: String,
    pub key_path: String,
    pub token: Option<String>,
}

/// What a successful run prints.
#[derive(Debug, Clone)]
pub enum SuccessReport {
    /// A JSON object on standard output.
    Json(SuccessOutput),
    /// Lines on standard error and standard output.
    Text { stderr: Option<String>, stdout: Option<String> },
}

/// What a successful run prints: in `--json` mode the success object, with
/// the token only under `--print-token`; otherwise the cache-hit marker under
/// `--verbose` and the token under `--print-token`.
pub fn handle_success(cli: &Cli, result: &DownloadFlowResult, cache_path: String, key_path: String) -> (r: SuccessReport)
    ensures
        cli.json ==> (r matches SuccessReport::Json(o) && o.ok && o.source@ == result.source.name()
            && o.cache_path == cache_path && o.key_path == key_path && (cli.print_token ==> (o.token matches Some(t) && t@ == result.token@))
            && (!cli.print_token ==> o.token is None)),
        !cli.json ==> (r matches SuccessReport::Text { stderr, stdout } && (
            (stderr is Some <==> (cli.verbose && result.source == TokenSource::Cache))
            && (stderr matches Some(e) ==> e@ == "\u{2713} Using cached token"@)
            && (stdout is Some <==> cli.print_token)
            && (stdout matches Some(o) ==> o@ == "Token: "@ + result.token@))),
{
    if cli.json {
        return SuccessReport::Json(SuccessOutput {
            ok: true,
            source: result.source.as_str().to_owned(),
            cache_path,
            key_path,
            token: if cli.print_token { Some(result.token.clone()) } else { None },
        });
    }
    let stderr = if cli.verbose && result.source == TokenSource::Cache {
        Some("\u{2713} Using cached token".to_owned())
    } else {
        None
    };
    let stdout = if cli.print_token {
        Some(line2("Token: ", result.token.as_str()))
    } else {
        None
    };
    SuccessReport::Text { stderr, stdout }
}

/// What a failed run prints in `--json` mode.
#[derive(Debug, Clone)]
pub struct ErrorOutput {
    pub ok: bool,
    pub error: String,
    pub detail: Option<String>,
    pub hint: Option<String>,
}

/// What a failed run prints on standard error before exiting non-zero.
#[derive(Debug, Clone)]
pub enum ErrorReport {
    /// A JSON object.
    Json(ErrorOutput),
    /// Lines of text.
    Lines(Vec<String>),
}

/// The hint shown without `--verbose`.
pub open spec fn verbose_hint() -> Seq<char> {
    "use --verbose for step logs"@
}

/// The lines a failure is shown with: the message, then the raw detail under
/// `--verbose`, or else the hint.
pub open spec fn error_lines_spec(verbose: bool, message: Seq<char>, detail: Option<Seq<char>>) -> Seq<Seq<char>> {
    seq!["error: "@ + message] + if verbose {
        opt_line("detail: "@, detail)
    } else {
        seq!["hint: "@ + verbose_hint()]
    }
}

/// What a failed run prints, from the failure's text.
pub fn handle_error(cli: &Cli, raw: &str) -> (r: ErrorReport)
    ensures
        ({
            let (message, detail) = classify_spec(raw@);
            &&& cli.json ==> (r matches ErrorReport::Json(o) && !o.ok && o.error@ == message
                && opt_view(o.detail) == detail && (cli.verbose ==> o.hint is None)
                && (!cli.verbose ==> (o.hint matches Some(h) && h@ == verbose_hint())))
            &&& !cli.json ==> (r matches ErrorReport::Lines(lines) && line_views(lines@)
                == error_lines_spec(cli.verbose, message, detail))
        }),
{
    let (message, detail) = classify_error(raw);
    let hint = if !cli.verbose { Some("use --verbose for step logs".to_owned()) } else { None };
    if cli.json {
        return ErrorReport::Json(ErrorOutput { ok: false, error: message, detail, hint });
    }
    let mut lines: Vec<String> = Vec::new();
    assert(line_views(lines@) =~= Seq::<Seq<char>>::empty());
    push_line(&mut lines, line2("error: ", message.as_str()));
    if cli.verbose {
        push_opt(&mut lines, "detail: ", &detail);
    } else {
        push_opt(&mut lines, "hint: ", &hint);
    }
    assert(line_views(lines@) =~= error_lines_spec(cli.verbose, message@, opt_view(detail)));
    ErrorReport::Lines(lines)
}

} // verus!
