//! The cookie jar of a login session: what `Set-Cookie` headers add to it and
//! the `Cookie` header that it sends.

use vstd::prelude::*;
use crate::text::{join, chars_of, push_all, push_str, string_of};
use crate::scan::{find_class, find_in, in_class, slice_chars, CharClass};

verus! {

/// Cookies in the order in which their names were first set.
pub struct CookieJar {
    names: Vec<String>,
    values: Vec<String>,
}

/// The position of the first cookie called `name` at or after `from`, or
/// the number of cookies.
pub open spec fn name_index_from(jar: Seq<(Seq<char>, Seq<char>)>, name: Seq<char>, from: int) -> int
    decreases jar.len() - from,
{
    if from < 0 || from >= jar.len() {
        jar.len() as int
    } else if jar[from].0 == name {
        from
    } else {
        name_index_from(jar, name, from + 1)
    }
}

/// The position of the cookie called `name`, or the number of cookies.
pub open spec fn name_index(jar: Seq<(Seq<char>, Seq<char>)>, name: Seq<char>) -> int {
    name_index_from(jar, name, 0)
}

/// The value of the cookie called `name`.
pub open spec fn jar_get(jar: Seq<(Seq<char>, Seq<char>)>, name: Seq<char>) -> Option<Seq<char>> {
    let i = name_index(jar, name);
    if i < jar.len() {
        Some(jar[i].1)
    } else {
        None
    }
}

/// The jar after setting cookie `name` to `value`: an existing cookie keeps
/// its place and takes the new value, a new one goes last.
pub open spec fn jar_insert(jar: Seq<(Seq<char>, Seq<char>)>, name: Seq<char>, value: Seq<char>) -> Seq<
    (Seq<char>, Seq<char>),
> {
    let i = name_index(jar, name);
    if i < jar.len() {
        jar.update(i, (name, value))
    } else {
        jar.push((name, value))
    }
}

/// No name occurs twice.
pub open spec fn names_distinct(jar: Seq<(Seq<char>, Seq<char>)>) -> bool {
    forall|i: int, j: int| 0 <= i < j < jar.len() ==> jar[i].0 != jar[j].0
}

/// The `Cookie` header for a jar: `name=value` pairs separated by `; `.
pub open spec fn cookie_header_text(jar: Seq<(Seq<char>, Seq<char>)>) -> Seq<char> {
    join(jar.map_values(|p: (Seq<char>, Seq<char>)| p.0 + "="@ + p.1), "; "@)
}

/// The effect of one `Set-Cookie` header: its part before the first `;` is
/// split at its first `=` into name and value; without `=` it sets nothing.
pub open spec fn apply_set_cookie_spec(jar: Seq<(Seq<char>, Seq<char>)>, header: Seq<char>) -> Seq<
    (Seq<char>, Seq<char>),
> {
    let pair = header.subrange(0, find_class(header, 0, CharClass::Is(';')));
    let pos = find_class(pair, 0, CharClass::Is('='));
    if pos < pair.len() {
        jar_insert(jar, pair.subrange(0, pos), pair.subrange(pos + 1, pair.len() as int))
    } else {
        jar
    }
}

/// The effect of a response's `Set-Cookie` headers, in order.
pub open spec fn apply_all_spec(jar: Seq<(Seq<char>, Seq<char>)>, headers: Seq<Seq<char>>) -> Seq<
    (Seq<char>, Seq<char>),
>
    decreases headers.len(),
{
    if headers.len() == 0 {
        jar
    } else {
        apply_set_cookie_spec(apply_all_spec(jar, headers.drop_last()), headers.last())
    }
}

proof fn lemma_index_from_is(jar: Seq<(Seq<char>, Seq<char>)>, name: Seq<char>, from: int, i: int)
    requires
        0 <= from <= i <= jar.len(),
        i < jar.len() ==> jar[i].0 == name,
        forall|k: int| from <= k < i ==> jar[k].0 != name,
    ensures
        name_index_from(jar, name, from) == i,
    decreases i - from,
{
    if from < i {
        lemma_index_from_is(jar, name, from + 1, i);
    }
}

proof fn lemma_index_from_bounds(jar: Seq<(Seq<char>, Seq<char>)>, name: Seq<char>, from: int)
    requires
        0 <= from <= jar.len(),
    ensures
        from <= name_index_from(jar, name, from) <= jar.len(),
        name_index_from(jar, name, from) < jar.len() ==> jar[name_index_from(jar, name, from)].0
            == name,
        forall|k: int| from <= k < name_index_from(jar, name, from) ==> jar[k].0 != name,
    decreases jar.len() - from,
{
    if from < jar.len() && jar[from].0 != name {
        lemma_index_from_bounds(jar, name, from + 1);
    }
}

proof fn lemma_name_index_bounds(jar: Seq<(Seq<char>, Seq<char>)>, name: Seq<char>)
    ensures
        0 <= name_index(jar, name) <= jar.len(),
        name_index(jar, name) < jar.len() ==> jar[name_index(jar, name)].0 == name,
        forall|k: int| 0 <= k < name_index(jar, name) ==> jar[k].0 != name,
{
    lemma_index_from_bounds(jar, name, 0);
}

proof fn lemma_name_index_first(jar: Seq<(Seq<char>, Seq<char>)>, name: Seq<char>, i: int)
    requires
        0 <= i <= jar.len(),
        i < jar.len() ==> jar[i].0 == name,
        forall|k: int| 0 <= k < i ==> jar[k].0 != name,
    ensures
        name_index(jar, name) == i,
{
    lemma_index_from_is(jar, name, 0, i);
}

impl View for CookieJar {
    type V = Seq<(Seq<char>, Seq<char>)>;

    closed spec fn view(&self) -> Seq<(Seq<char>, Seq<char>)> {
        Seq::new(self.names@.len(), |i: int| (self.names@[i]@, self.values@[i]@))
    }
}

impl CookieJar {
    /// The jar's internal shape: one value per name, and no name twice.
    pub closed spec fn wf(&self) -> bool {
        &&& self.names@.len() == self.values@.len()
        &&& names_distinct(self@)
    }

    /// An empty jar.
    pub fn new() -> (jar: CookieJar)
        ensures
            jar.wf(),
            jar@ == Seq::<(Seq<char>, Seq<char>)>::empty(),
    {
        let jar = CookieJar { names: Vec::new(), values: Vec::new() };
        assert(jar@ =~= Seq::<(Seq<char>, Seq<char>)>::empty());
        jar
    }

    /// Sets cookie `name` to `value`.
    pub fn insert(&mut self, name: String, value: String)
        requires
            old(self).wf(),
        ensures
            final(self).wf(),
            final(self)@ == jar_insert(old(self)@, name@, value@),
    {
        let ghost before = self@;
        let mut i: usize = 0;
        while i < self.names.len()
            invariant
                self.wf(),
                self@ == before,
                before == old(self)@,
                i <= self.names@.len(),
                forall|k: int| 0 <= k < i ==> self@[k].0 != name@,
            decreases self.names.len() - i,
        {
            if self.names[i] == name {
                proof {
                    lemma_name_index_first(before, name@, i as int);
                }
                let ghost v = value@;
                self.values.set(i, value);
                assert(self.values@[i as int]@ == v);
                assert(self@ =~= before.update(i as int, (name@, v)));
                return;
            }
            i = i + 1;
        }
        proof {
            lemma_name_index_first(before, name@, i as int);
        }
        self.names.push(name);
        self.values.push(value);
        assert(self@ =~= before.push((self.names@.last()@, self.values@.last()@)));
    }

    /// The value of cookie `name`.
    pub fn get(&self, name: &str) -> (v: Option<String>)
        requires
            self.wf(),
        ensures
            match v {
                Some(s) => jar_get(self@, name@) == Some(s@),
                None => jar_get(self@, name@) is None,
            },
    {
        let key = name.to_owned();
        let mut i: usize = 0;
        while i < self.names.len()
            invariant
                self.wf(),
                i <= self.names@.len(),
                key@ == name@,
                forall|k: int| 0 <= k < i ==> self@[k].0 != name@,
            decreases self.names.len() - i,
        {
            if self.names[i] == key {
                proof {
                    lemma_name_index_first(self@, name@, i as int);
                }
                return Some(self.values[i].clone());
            }
            i = i + 1;
        }
        proof {
            lemma_name_index_first(self@, name@, i as int);
        }
        None
    }

    /// Applies one `Set-Cookie` header.
    pub fn apply_set_cookie(&mut self, header: &str)
        requires
            old(self).wf(),
        ensures
            final(self).wf(),
            final(self)@ == apply_set_cookie_spec(old(self)@, header@),
    {
        let h = chars_of(header);
        let end = find_in(&h, 0, CharClass::Is(';'));
        let pair = slice_chars(&h, 0, end);
        let pos = find_in(&pair, 0, CharClass::Is('='));
        if pos < pair.len() {
            let name = slice_chars(&pair, 0, pos);
            let value = slice_chars(&pair, pos + 1, pair.len());
            self.insert(string_of(&name), string_of(&value));
        }
    }

    /// Applies the `Set-Cookie` headers of a response, in order.
    pub fn update_cookies(&mut self, headers: &Vec<String>)
        requires
            old(self).wf(),
        ensures
            final(self).wf(),
            final(self)@ == apply_all_spec(
                old(self)@,
                headers@.map_values(|h: String| h@),
            ),
    {
        let ghost start = self@;
        let ghost hs = headers@.map_values(|h: String| h@);
        let mut i: usize = 0;
        while i < headers.len()
            invariant
                self.wf(),
                i <= headers.len(),
                hs == headers@.map_values(|h: String| h@),
                self@ == apply_all_spec(start, hs.take(i as int)),
            decreases headers.len() - i,
        {
            self.apply_set_cookie(headers[i].as_str());
            i = i + 1;
            assert(hs.take(i as int).drop_last() =~= hs.take((i - 1) as int));
        }
        assert(hs.take(i as int) =~= hs);
    }

    /// The `Cookie` header for the jar.
    pub fn cookie_header(&self) -> (s: String)
        requires
            self.wf(),
        ensures
            s@ == cookie_header_text(self@),
    {
        let ghost parts = self@.map_values(|p: (Seq<char>, Seq<char>)| p.0 + "="@ + p.1);
        let eq = chars_of("=");
        let sep = chars_of("; ");
        let mut out: Vec<char> = Vec::new();
        let mut i: usize = 0;
        while i < self.names.len()
            invariant
                self.wf(),
                i <= self.names@.len(),
                eq@ == "="@,
                sep@ == "; "@,
                parts == self@.map_values(|p: (Seq<char>, Seq<char>)| p.0 + "="@ + p.1),
                out@ == join(parts.take(i as int), "; "@),
            decreases self.names.len() - i,
        {
            if i > 0 {
                push_all(&mut out, &sep);
            }
            push_str(&mut out, self.names[i].as_str());
            push_all(&mut out, &eq);
            push_str(&mut out, self.values[i].as_str());
            i = i + 1;
            assert(parts.take(i as int).drop_last() =~= parts.take((i - 1) as int));
            assert(parts.take(i as int).last() == parts[i - 1]);
            if i == 1 {
                assert(parts.take(0) =~= Seq::<Seq<char>>::empty());
                assert(out@ =~= parts.take(i as int)[0]);
            } else {
                assert(out@ =~= join(parts.take((i - 1) as int), "; "@) + "; "@ + parts[i - 1]);
            }
        }
        assert(parts.take(i as int) =~= parts);
        string_of(&out)
    }
}

/// Law: after a cookie is set, the jar holds exactly the new value under its
/// name, every other cookie is unchanged, and no name occurs twice.
pub proof fn lemma_insert_then_get(
    jar: Seq<(Seq<char>, Seq<char>)>,
    name: Seq<char>,
    value: Seq<char>,
    other: Seq<char>,
)
    requires
        names_distinct(jar),
    ensures
        jar_get(jar_insert(jar, name, value), name) == Some(value),
        other != name ==> jar_get(jar_insert(jar, name, value), other) == jar_get(jar, other),
        names_distinct(jar_insert(jar, name, value)),
{
    let i = name_index(jar, name);
    let j = name_index(jar, other);
    let after = jar_insert(jar, name, value);
    lemma_name_index_bounds(jar, name);
    lemma_name_index_bounds(jar, other);
    lemma_name_index_first(after, name, i);
    if other != name {
        if j < jar.len() {
            lemma_name_index_first(after, other, j);
        } else {
            lemma_name_index_first(after, other, after.len() as int);
        }
    }
    assert forall|a: int, b: int| 0 <= a < b < after.len() implies after[a].0 != after[b].0 by {
        if i < jar.len() {
            if a == i {
                assert(jar[b].0 != jar[i].0);
            } else if b == i {
                assert(jar[a].0 != jar[i].0);
            }
        } else if b == jar.len() {
            assert(jar[a].0 != name);
        }
    }
}


proof fn lemma_find_class_at(s: Seq<char>, from: int, k: CharClass, p: int)
    requires
        0 <= from <= p <= s.len(),
        forall|m: int| from <= m < p ==> !in_class(#[trigger] s[m], k),
        p < s.len() ==> in_class(s[p], k),
    ensures
        find_class(s, from, k) == p,
    decreases p - from,
{
    if from < p {
        lemma_find_class_at(s, from + 1, k, p);
    }
}

/// Whether a text holds the character `c`.
pub open spec fn has_char(t: Seq<char>, c: char) -> bool {
    exists|i: int| 0 <= i < t.len() && t[i] == c
}

/// Law: a `Set-Cookie` header `name=value`, with or without attributes after a
/// `;`, sets exactly that cookie: afterwards the jar holds `value` under
/// `name`, every other cookie is unchanged, and no name occurs twice.
pub proof fn lemma_set_cookie_sets(
    jar: Seq<(Seq<char>, Seq<char>)>,
    name: Seq<char>,
    value: Seq<char>,
    attributes: Seq<char>,
    other: Seq<char>,
)
    requires
        names_distinct(jar),
        !has_char(name, '='),
        !has_char(name, ';'),
        !has_char(value, ';'),
        attributes.len() == 0 || attributes[0] == ';',
    ensures
        ({
            let after = apply_set_cookie_spec(jar, name + "="@ + value + attributes);
            &&& jar_get(after, name) == Some(value)
            &&& other != name ==> jar_get(after, other) == jar_get(jar, other)
            &&& names_distinct(after)
        }),
{
    reveal_strlit("=");
    let h = name + "="@ + value + attributes;
    assert(h.len() == name.len() + 1 + value.len() + attributes.len());
    let end: int = (name.len() + 1 + value.len()) as int;
    assert forall|m: int| 0 <= m < end implies !in_class(#[trigger] h[m], CharClass::Is(';')) by {
        if m < name.len() {
            assert(h[m] == name[m]);
            if h[m] == ';' {
                assert(has_char(name, ';'));
            }
        } else if m > name.len() {
            assert(h[m] == value[m - name.len() - 1]);
            if h[m] == ';' {
                assert(has_char(value, ';'));
            }
        }
    }
    if end < h.len() {
        assert(h[end] == attributes[0]);
    }
    lemma_find_class_at(h, 0, CharClass::Is(';'), end);
    let pair = h.subrange(0, end);
    assert(pair =~= name + "="@ + value);
    assert forall|m: int| 0 <= m < name.len() implies !in_class(#[trigger] pair[m], CharClass::Is('=')) by {
        assert(pair[m] == name[m]);
        if pair[m] == '=' {
            assert(has_char(name, '='));
        }
    }
    lemma_find_class_at(pair, 0, CharClass::Is('='), name.len() as int);
    assert(pair.subrange(0, name.len() as int) =~= name);
    assert(pair.subrange(name.len() as int + 1, pair.len() as int) =~= value);
    lemma_insert_then_get(jar, name, value, other);
}

proof fn lemma_set_cookie_keeps_distinct(jar: Seq<(Seq<char>, Seq<char>)>, header: Seq<char>)
    requires
        names_distinct(jar),
    ensures
        names_distinct(apply_set_cookie_spec(jar, header)),
{
    let pair = header.subrange(0, find_class(header, 0, CharClass::Is(';')));
    let pos = find_class(pair, 0, CharClass::Is('='));
    if pos < pair.len() {
        lemma_insert_then_get(jar, pair.subrange(0, pos), pair.subrange(pos + 1, pair.len() as int), pair);
    }
}

/// Law: applying a reply's `Set-Cookie` headers never makes a name occur
/// twice in the jar.
pub proof fn lemma_apply_all_keeps_distinct(jar: Seq<(Seq<char>, Seq<char>)>, headers: Seq<Seq<char>>)
    requires
        names_distinct(jar),
    ensures
        names_distinct(apply_all_spec(jar, headers)),
    decreases headers.len(),
{
    if headers.len() > 0 {
        lemma_apply_all_keeps_distinct(jar, headers.drop_last());
        lemma_set_cookie_keeps_distinct(apply_all_spec(jar, headers.drop_last()), headers.last());
    }
}

} // verus!
