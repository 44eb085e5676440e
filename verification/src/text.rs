//! Character-level helpers shared by the parsers and formatters.
//!
//! Text is handled as `Vec<char>` while it is built and turned into a
//! `String` once, so that every step has a contract over `Seq<char>`.

use vstd::prelude::*;

verus! {

/// `p` is a prefix of `s`.
pub open spec fn starts_with(s: Seq<char>, p: Seq<char>) -> bool {
    p.len() <= s.len() && s.subrange(0, p.len() as int) == p
}

/// `p` occurs in `s` at position `i`.
pub open spec fn occurs_at(s: Seq<char>, p: Seq<char>, i: int) -> bool {
    0 <= i && i + p.len() <= s.len() && s.subrange(i, i + p.len()) == p
}

/// `p` occurs somewhere in `s`.
pub open spec fn contains(s: Seq<char>, p: Seq<char>) -> bool {
    exists|i: int| occurs_at(s, p, i)
}

/// The text of an optional string.
pub open spec fn opt_view(o: Option<String>) -> Option<Seq<char>> {
    match o {
        Some(s) => Some(s@),
        None => None,
    }
}

/// ASCII lower-casing of one character; other characters are kept.
pub open spec fn lower_char(c: char) -> char {
    if 'A' <= c && c <= 'Z' {
        ((c as u32) + 32) as char
    } else {
        c
    }
}

/// ASCII lower-casing of a text, as `str::to_ascii_lowercase` does it.
pub open spec fn ascii_lower(s: Seq<char>) -> Seq<char> {
    s.map_values(|c: char| lower_char(c))
}

/// Texts joined by a separator.
pub open spec fn join(parts: Seq<Seq<char>>, sep: Seq<char>) -> Seq<char>
    decreases parts.len(),
{
    if parts.len() == 0 {
        seq![]
    } else if parts.len() == 1 {
        parts[0]
    } else {
        join(parts.drop_last(), sep) + sep + parts.last()
    }
}

/// The decimal digit for `d < 10`.
pub open spec fn digit(d: nat) -> char {
    (('0' as u32) + d) as char
}

/// Decimal notation of a natural number, without sign or leading zeros.
pub open spec fn decimal(n: nat) -> Seq<char>
    decreases n,
{
    if n < 10 {
        seq![digit(n)]
    } else {
        decimal(n / 10).push(digit(n % 10))
    }
}

/// Whether a character is one of the ASCII digits `0` to `9`.
pub open spec fn is_digit_char(c: char) -> bool {
    '0' <= c <= '9'
}

/// The number that a run of decimal digits denotes.
pub open spec fn decimal_value(s: Seq<char>) -> nat
    decreases s.len(),
{
    if s.len() == 0 {
        0
    } else {
        decimal_value(s.drop_last()) * 10 + ((s.last() as int) - ('0' as int)) as nat
    }
}

/// Decimal notation is a non-empty run of digits that reads back as the number.
pub proof fn lemma_decimal_reads_back(n: nat)
    ensures
        decimal(n).len() >= 1,
        forall|k: int| 0 <= k < decimal(n).len() ==> is_digit_char(#[trigger] decimal(n)[k]),
        decimal_value(decimal(n)) == n,
    decreases n,
{
    if n < 10 {
        assert((('0' as u32) + n) as char as u32 == ('0' as u32) + n);
        assert(decimal(n).drop_last() =~= Seq::<char>::empty());
        assert(decimal_value(Seq::<char>::empty()) == 0);
        assert(decimal(n).last() == digit(n));
    } else {
        lemma_decimal_reads_back(n / 10);
        let d = n % 10;
        assert((('0' as u32) + d) as char as u32 == ('0' as u32) + d);
        assert(decimal(n).drop_last() =~= decimal(n / 10));
        assert(decimal(n).last() == digit(d));
        assert(n == (n / 10) * 10 + n % 10);
    }
}

/// Collects the characters of a string slice.
pub fn chars_of(s: &str) -> (v: Vec<char>)
    ensures
        v@ == s@,
{
    let mut v: Vec<char> = Vec::new();
    for c in it: s.chars()
        invariant
            v@ == it.seq().take(it.index() as int),
            it.seq() == s@,
    {
        v.push(c);
    }
    v
}

/// `String::push` appends one character.
pub assume_specification[ String::push ](s: &mut String, ch: char)
    ensures
        final(s)@ == old(s)@.push(ch),
;

/// Builds a `String` from characters.
pub fn string_of(v: &Vec<char>) -> (s: String)
    ensures
        s@ == v@,
{
    let mut s = String::new();
    let mut i: usize = 0;
    while i < v.len()
        invariant
            i <= v.len(),
            s@ == v@.take(i as int),
        decreases v.len() - i,
    {
        s.push(v[i]);
        i = i + 1;
        assert(v@.take(i as int) == v@.take((i - 1) as int).push(v@[i - 1]));
    }
    assert(v@.take(i as int) == v@);
    s
}

/// Appends the characters of `s` to `out`.
pub fn push_str(out: &mut Vec<char>, s: &str)
    ensures
        final(out)@ == old(out)@ + s@,
{
    let cs = chars_of(s);
    push_all(out, &cs);
}

/// Appends the characters of `cs` to `out`.
pub fn push_all(out: &mut Vec<char>, cs: &Vec<char>)
    ensures
        final(out)@ == old(out)@ + cs@,
{
    let ghost start = out@;
    let mut i: usize = 0;
    while i < cs.len()
        invariant
            i <= cs.len(),
            out@ == start + cs@.take(i as int),
        decreases cs.len() - i,
    {
        out.push(cs[i]);
        i = i + 1;
        assert(cs@.take(i as int) == cs@.take((i - 1) as int).push(cs@[i - 1]));
    }
    assert(cs@.take(i as int) == cs@);
}

/// Appends the decimal notation of `n` to `out`.
pub fn push_decimal(out: &mut Vec<char>, n: u128)
    ensures
        final(out)@ == old(out)@ + decimal(n as nat),
    decreases n,
{
    if n < 10 {
        let d = digit_char(n as u8);
        out.push(d);
    } else {
        push_decimal(out, n / 10);
        let d = digit_char((n % 10) as u8);
        out.push(d);
    }
}

/// The digit character for `d < 10`.
pub fn digit_char(d: u8) -> (c: char)
    requires
        d < 10,
    ensures
        c == digit(d as nat),
{
    let b: u8 = 48 + d;
    let c = b as char;
    assert(c == digit(d as nat)) by {
        assert((b as char) as u32 == b as u32);
    }
    c
}

/// Whether two texts are equal.
pub fn same_text(a: &str, b: &str) -> (r: bool)
    ensures
        r == (a@ == b@),
{
    let x = a.to_owned();
    let y = b.to_owned();
    x == y
}

/// Whether `p` is a prefix of `s`.
pub fn has_prefix(s: &Vec<char>, p: &Vec<char>) -> (b: bool)
    ensures
        b == starts_with(s@, p@),
{
    has_at(s, p, 0)
}

/// Whether `p` occurs in `s` at position `i`.
pub fn has_at(s: &Vec<char>, p: &Vec<char>, i: usize) -> (b: bool)
    ensures
        b == occurs_at(s@, p@, i as int),
{
    if i > s.len() || p.len() > s.len() - i {
        return false;
    }
    let mut k: usize = 0;
    while k < p.len()
        invariant
            i + p.len() <= s.len(),
            k <= p.len(),
            forall|m: int| 0 <= m < k ==> s@[i + m] == p@[m],
        decreases p.len() - k,
    {
        if s[i + k] != p[k] {
            assert(s@.subrange(i as int, i + p.len())[k as int] != p@[k as int]);
            return false;
        }
        k = k + 1;
    }
    assert(s@.subrange(i as int, i + p.len()) =~= p@);
    true
}

/// Whether `p` occurs anywhere in `s`.
pub fn has_infix(s: &Vec<char>, p: &Vec<char>) -> (b: bool)
    ensures
        b == contains(s@, p@),
{
    if p.len() > s.len() {
        return false;
    }
    let last = s.len() - p.len();
    let mut i: usize = 0;
    while i < last
        invariant
            p.len() <= s.len(),
            last == s.len() - p.len(),
            i <= last,
            forall|j: int| 0 <= j < i ==> !occurs_at(s@, p@, j),
        decreases last - i,
    {
        if has_at(s, p, i) {
            return true;
        }
        i = i + 1;
    }
    has_at(s, p, last)
}

/// ASCII lower-casing of a text.
pub fn to_ascii_lower(s: &Vec<char>) -> (r: Vec<char>)
    ensures
        r@ == ascii_lower(s@),
{
    let mut r: Vec<char> = Vec::new();
    let mut i: usize = 0;
    while i < s.len()
        invariant
            i <= s.len(),
            r@ == ascii_lower(s@.take(i as int)),
        decreases s.len() - i,
    {
        let c = s[i];
        let l = if 'A' <= c && c <= 'Z' {
            let b: u8 = (c as u8) + 32;
            let l = b as char;
            assert(l == lower_char(c)) by {
                assert((b as char) as u32 == b as u32);
            }
            l
        } else {
            c
        };
        r.push(l);
        i = i + 1;
        assert(ascii_lower(s@.take(i as int)) =~= ascii_lower(s@.take((i - 1) as int)).push(
            lower_char(c),
        ));
    }
    assert(s@.take(i as int) == s@);
    r
}

} // verus!
