//! The three patterns that the login flow looks for in HTML and JavaScript,
//! matched as a regular-expression engine matches them: the leftmost match
//! wins, and its first group is returned.
//!
//! * `ExecutionToken`: `name="execution"\s+value="([^"]+)"`
//! * `RedirectUrl`: `window\.location\.href\s*=\s*['"]([^'"]+)['"]`
//! * `PublicKey`: `var key = '([^']+)'`
//!
//! `\s` is ASCII whitespace: space, tab, line feed, vertical tab, form feed
//! and carriage return.

use vstd::prelude::*;
use crate::text::{chars_of, has_at, occurs_at};

verus! {

/// A set of characters that a scan stops at or skips.
#[derive(Debug, Clone, Copy, PartialEq, Eq)]
pub enum CharClass {
    Space,
    DoubleQuote,
    SingleQuote,
    AnyQuote,
    Is(char),
}

/// Membership of a character in a class.
pub open spec fn in_class(c: char, k: CharClass) -> bool {
    match k {
        CharClass::Space => c == ' ' || c == '\t' || c == '\n' || c == '\x0B' || c == '\x0C' || c
            == '\r',
        CharClass::DoubleQuote => c == '"',
        CharClass::SingleQuote => c == '\'',
        CharClass::AnyQuote => c == '"' || c == '\'',
        CharClass::Is(x) => c == x,
    }
}

/// The first position at or after `from` whose character is outside `k`
/// (the length of `s` when there is none).
pub open spec fn skip_class(s: Seq<char>, from: int, k: CharClass) -> int
    decreases s.len() - from,
{
    if from < 0 || from >= s.len() {
        from
    } else if in_class(s[from], k) {
        skip_class(s, from + 1, k)
    } else {
        from
    }
}

/// The first position at or after `from` whose character is in `k`
/// (the length of `s` when there is none).
pub open spec fn find_class(s: Seq<char>, from: int, k: CharClass) -> int
    decreases s.len() - from,
{
    if from < 0 || from >= s.len() {
        from
    } else if in_class(s[from], k) {
        from
    } else {
        find_class(s, from + 1, k)
    }
}

/// A scan ends within the text.
pub proof fn lemma_find_class_bounds(s: Seq<char>, from: int, k: CharClass)
    requires
        0 <= from <= s.len(),
    ensures
        from <= find_class(s, from, k) <= s.len(),
    decreases s.len() - from,
{
    if from < s.len() {
        lemma_find_class_bounds(s, from + 1, k);
    }
}

/// Whether `c` is in class `k`.
pub fn class_has(c: char, k: CharClass) -> (b: bool)
    ensures
        b == in_class(c, k),
{
    match k {
        CharClass::Space => c == ' ' || c == '\t' || c == '\n' || c == '\x0B' || c == '\x0C' || c
            == '\r',
        CharClass::DoubleQuote => c == '"',
        CharClass::SingleQuote => c == '\'',
        CharClass::AnyQuote => c == '"' || c == '\'',
        CharClass::Is(x) => c == x,
    }
}

/// Skips the characters of class `k` from `from` on.
pub fn skip_in(s: &Vec<char>, from: usize, k: CharClass) -> (r: usize)
    requires
        from <= s.len(),
    ensures
        r == skip_class(s@, from as int, k),
        from <= r <= s.len(),
{
    let mut i = from;
    while i < s.len() && class_has(s[i], k)
        invariant
            from <= i <= s.len(),
            skip_class(s@, from as int, k) == skip_class(s@, i as int, k),
        decreases s.len() - i,
    {
        i = i + 1;
    }
    i
}

/// Finds the first character of class `k` from `from` on.
pub fn find_in(s: &Vec<char>, from: usize, k: CharClass) -> (r: usize)
    requires
        from <= s.len(),
    ensures
        r == find_class(s@, from as int, k),
        from <= r <= s.len(),
{
    let mut i = from;
    while i < s.len() && !class_has(s[i], k)
        invariant
            from <= i <= s.len(),
            find_class(s@, from as int, k) == find_class(s@, i as int, k),
        decreases s.len() - i,
    {
        i = i + 1;
    }
    i
}

/// The patterns of the login flow.
#[derive(Debug, Clone, Copy, PartialEq, Eq)]
pub enum Pattern {
    ExecutionToken,
    RedirectUrl,
    PublicKey,
}

/// The bounds of the group captured by a non-empty run of characters outside
/// `stop`, from `c` up to the closing character of class `stop`.
pub open spec fn group_from(s: Seq<char>, c: int, stop: CharClass) -> Option<(int, int)> {
    let e = find_class(s, c, stop);
    if c < e && e < s.len() {
        Some((c, e))
    } else {
        None
    }
}

/// The bounds of the group of a match of `p` that starts at `i`, if one does.
pub open spec fn match_at(p: Pattern, s: Seq<char>, i: int) -> Option<(int, int)> {
    match p {
        Pattern::ExecutionToken => {
            let head = "name=\"execution\""@;
            let tail = "value=\""@;
            if !occurs_at(s, head, i) {
                None
            } else {
                let j = i + head.len();
                let k = skip_class(s, j, CharClass::Space);
                if k == j || !occurs_at(s, tail, k) {
                    None
                } else {
                    group_from(s, k + tail.len(), CharClass::DoubleQuote)
                }
            }
        },
        Pattern::RedirectUrl => {
            let head = "window.location.href"@;
            if !occurs_at(s, head, i) {
                None
            } else {
                let k1 = skip_class(s, i + head.len(), CharClass::Space);
                if !(k1 < s.len() && s[k1] == '=') {
                    None
                } else {
                    let k2 = skip_class(s, k1 + 1, CharClass::Space);
                    if !(k2 < s.len() && in_class(s[k2], CharClass::AnyQuote)) {
                        None
                    } else {
                        group_from(s, k2 + 1, CharClass::AnyQuote)
                    }
                }
            }
        },
        Pattern::PublicKey => {
            let head = "var key = '"@;
            if !occurs_at(s, head, i) {
                None
            } else {
                group_from(s, i + head.len(), CharClass::SingleQuote)
            }
        },
    }
}

/// The group of the leftmost match of `p` that starts at or after `from`.
pub open spec fn leftmost_from(p: Pattern, s: Seq<char>, from: int) -> Option<Seq<char>>
    decreases s.len() + 1 - from,
{
    if from < 0 || from > s.len() {
        None
    } else {
        match match_at(p, s, from) {
            Some((c, e)) => Some(s.subrange(c, e)),
            None => leftmost_from(p, s, from + 1),
        }
    }
}

/// The group of the leftmost match of `p` in `s`.
pub open spec fn leftmost(p: Pattern, s: Seq<char>) -> Option<Seq<char>> {
    leftmost_from(p, s, 0)
}

fn group_in(s: &Vec<char>, c: usize, stop: CharClass) -> (r: Option<(usize, usize)>)
    requires
        c <= s.len(),
    ensures
        match r {
            Some((a, b)) => group_from(s@, c as int, stop) == Some((a as int, b as int)),
            None => group_from(s@, c as int, stop) is None,
        },
{
    let e = find_in(s, c, stop);
    if c < e && e < s.len() {
        Some((c, e))
    } else {
        None
    }
}

/// The bounds of the group of a match of `p` that starts at `i`.
pub fn match_here(p: Pattern, s: &Vec<char>, i: usize) -> (r: Option<(usize, usize)>)
    requires
        i <= s.len(),
    ensures
        match r {
            Some((a, b)) => match_at(p, s@, i as int) == Some((a as int, b as int)),
            None => match_at(p, s@, i as int) is None,
        },
{
    match p {
        Pattern::ExecutionToken => {
            let head = chars_of("name=\"execution\"");
            let tail = chars_of("value=\"");
            if !has_at(s, &head, i) {
                return None;
            }
            let j = i + head.len();
            let k = skip_in(s, j, CharClass::Space);
            if k == j || !has_at(s, &tail, k) {
                return None;
            }
            group_in(s, k + tail.len(), CharClass::DoubleQuote)
        },
        Pattern::RedirectUrl => {
            let head = chars_of("window.location.href");
            if !has_at(s, &head, i) {
                return None;
            }
            let k1 = skip_in(s, i + head.len(), CharClass::Space);
            if !(k1 < s.len() && s[k1] == '=') {
                return None;
            }
            let k2 = skip_in(s, k1 + 1, CharClass::Space);
            if !(k2 < s.len() && class_has(s[k2], CharClass::AnyQuote)) {
                return None;
            }
            group_in(s, k2 + 1, CharClass::AnyQuote)
        },
        Pattern::PublicKey => {
            let head = chars_of("var key = '");
            if !has_at(s, &head, i) {
                return None;
            }
            group_in(s, i + head.len(), CharClass::SingleQuote)
        },
    }
}

/// Copies `s[a..b]`.
pub fn slice_chars(s: &Vec<char>, a: usize, b: usize) -> (r: Vec<char>)
    requires
        a <= b <= s.len(),
    ensures
        r@ == s@.subrange(a as int, b as int),
{
    let mut r: Vec<char> = Vec::new();
    let mut i = a;
    while i < b
        invariant
            a <= i <= b <= s.len(),
            r@ == s@.subrange(a as int, i as int),
        decreases b - i,
    {
        r.push(s[i]);
        i = i + 1;
        assert(r@ =~= s@.subrange(a as int, i as int));
    }
    r
}

/// The group of the leftmost match of `p` in `s`.
pub fn find_leftmost(p: Pattern, s: &Vec<char>) -> (r: Option<Vec<char>>)
    ensures
        match r {
            Some(g) => leftmost(p, s@) == Some(g@),
            None => leftmost(p, s@) is None,
        },
{
    let mut i: usize = 0;
    loop
        invariant
            i <= s.len(),
            leftmost(p, s@) == leftmost_from(p, s@, i as int),
        decreases s.len() - i,
    {
        match match_here(p, s, i) {
            Some((a, b)) => {
                return Some(slice_chars(s, a, b));
            },
            None => {},
        }
        if i == s.len() {
            assert(leftmost_from(p, s@, i + 1) is None);
            return None;
        }
        i = i + 1;
    }
}


/// The class that ends the group of a pattern.
pub open spec fn group_stop(p: Pattern) -> CharClass {
    match p {
        Pattern::ExecutionToken => CharClass::DoubleQuote,
        Pattern::RedirectUrl => CharClass::AnyQuote,
        Pattern::PublicKey => CharClass::SingleQuote,
    }
}

proof fn lemma_find_class_skips(s: Seq<char>, from: int, k: CharClass)
    requires
        0 <= from <= s.len(),
    ensures
        forall|m: int| from <= m < find_class(s, from, k) ==> !in_class(#[trigger] s[m], k),
    decreases s.len() - from,
{
    if from < s.len() && !in_class(s[from], k) {
        lemma_find_class_skips(s, from + 1, k);
    }
}

proof fn lemma_group_plain(p: Pattern, s: Seq<char>, i: int)
    requires
        0 <= i <= s.len(),
        match_at(p, s, i) is Some,
    ensures
        ({
            let (c, e) = match_at(p, s, i)->0;
            &&& 0 <= c < e <= s.len()
            &&& forall|m: int| c <= m < e ==> !in_class(#[trigger] s[m], group_stop(p))
        }),
{
    let (c, e) = match_at(p, s, i)->0;
    lemma_find_class_bounds(s, c, group_stop(p));
    lemma_find_class_skips(s, c, group_stop(p));
}

proof fn lemma_leftmost_from_plain(p: Pattern, s: Seq<char>, from: int)
    requires
        leftmost_from(p, s, from) is Some,
    ensures
        ({
            let g = leftmost_from(p, s, from)->0;
            &&& g.len() > 0
            &&& forall|m: int| 0 <= m < g.len() ==> !in_class(#[trigger] g[m], group_stop(p))
        }),
    decreases s.len() + 1 - from,
{
    if match_at(p, s, from) is Some {
        lemma_group_plain(p, s, from);
        let (c, e) = match_at(p, s, from)->0;
        let g = s.subrange(c, e);
        assert forall|m: int| 0 <= m < g.len() implies !in_class(#[trigger] g[m], group_stop(p)) by {
            assert(g[m] == s[c + m]);
        }
    } else {
        lemma_leftmost_from_plain(p, s, from + 1);
    }
}

/// Law: what a pattern captures is never empty and never holds the quote
/// that closes it, so a token, URL or key cannot run past its quotes.
pub proof fn lemma_capture_is_plain(p: Pattern, s: Seq<char>)
    requires
        leftmost(p, s) is Some,
    ensures
        leftmost(p, s)->0.len() > 0,
        forall|m: int| 0 <= m < leftmost(p, s)->0.len() ==> !in_class(
            #[trigger] leftmost(p, s)->0[m],
            group_stop(p),
        ),
{
    lemma_leftmost_from_plain(p, s, 0);
}

} // verus!
