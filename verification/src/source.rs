//! The key/value store an environment-style source file populates, and the
//! parser for that file format: `KEY = value` lines, `#` comments, blank
//! lines, optional double quotes around values.

use vstd::prelude::*;

use crate::text::chars_of;
use crate::text::string_of;
use crate::text::subvec;

verus! {

/// An in-memory key/value configuration source.  Order is kept; a lookup
/// returns the value of the first pair holding the key.
pub struct EnvSource {
    pairs: Vec<(String, String)>,
}

impl View for EnvSource {
    type V = Seq<(Seq<char>, Seq<char>)>;

    closed spec fn view(&self) -> Seq<(Seq<char>, Seq<char>)> {
        self.pairs@.map_values(|p: (String, String)| (p.0@, p.1@))
    }
}

/// The value of the first pair whose key is `k`, if any.
pub open spec fn spec_lookup(ps: Seq<(Seq<char>, Seq<char>)>, k: Seq<char>) -> Option<Seq<char>>
    decreases ps.len(),
{
    if ps.len() == 0 {
        None
    } else if ps[0].0 == k {
        Some(ps[0].1)
    } else {
        spec_lookup(ps.skip(1), k)
    }
}

pub open spec fn is_ws(c: char) -> bool {
    c == ' ' || c == '\t' || c == '\r'
}

/// The first index at or after `i` holding `c`; `i` itself past the end.
pub open spec fn find_from(s: Seq<char>, i: int, c: char) -> int
    decreases s.len() - i,
{
    if i >= s.len() {
        i
    } else if s[i] == c {
        i
    } else {
        find_from(s, i + 1, c)
    }
}

pub proof fn lemma_find_from_ge(s: Seq<char>, i: int, c: char)
    ensures
        find_from(s, i, c) >= i,
    decreases s.len() - i,
{
    if i < s.len() && s[i] != c {
        lemma_find_from_ge(s, i + 1, c);
    }
}

pub proof fn lemma_find_from(s: Seq<char>, i: int, c: char)
    requires
        0 <= i <= s.len(),
    ensures
        i <= find_from(s, i, c) <= s.len(),
        find_from(s, i, c) < s.len() ==> s[find_from(s, i, c)] == c,
    decreases s.len() - i,
{
    if i < s.len() && s[i] != c {
        lemma_find_from(s, i + 1, c);
    }
}

/// The first index at or after `i` holding a non-whitespace character.
pub open spec fn ws_front(s: Seq<char>, i: int) -> int
    decreases s.len() - i,
{
    if i >= s.len() {
        i
    } else if is_ws(s[i]) {
        ws_front(s, i + 1)
    } else {
        i
    }
}

/// The end of `s.take(j)` once trailing whitespace is dropped.
pub open spec fn ws_back(s: Seq<char>, j: int) -> int
    decreases j,
{
    if j <= 0 {
        0
    } else if is_ws(s[j - 1]) {
        ws_back(s, j - 1)
    } else {
        j
    }
}

/// `s` with leading and trailing whitespace removed.
pub open spec fn spec_trim(s: Seq<char>) -> Seq<char> {
    let a = ws_front(s, 0);
    let b = ws_back(s, s.len() as int);
    if 0 <= a <= b <= s.len() {
        s.subrange(a, b)
    } else {
        Seq::empty()
    }
}

/// Strips one pair of surrounding double quotes, when both are present.
pub open spec fn spec_unquote(s: Seq<char>) -> Seq<char> {
    if s.len() >= 2 && s[0] == '"' && s[s.len() - 1] == '"' {
        s.subrange(1, s.len() - 1)
    } else {
        s
    }
}

/// What one line of the source file means: nothing, one pair, or a defect
/// that makes the whole source unusable.
pub enum LineParse {
    Skip,
    Pair(Seq<char>, Seq<char>),
    Bad,
}

/// Reads one line: blank lines and `#` comments carry nothing; otherwise
/// the trimmed text left of the first `=` is the key (it must be
/// non-empty) and the trimmed, unquoted text right of it is the value.
pub open spec fn parse_line(line: Seq<char>) -> LineParse {
    let t = spec_trim(line);
    if t.len() == 0 {
        LineParse::Skip
    } else if t[0] == '#' {
        LineParse::Skip
    } else {
        let e = find_from(t, 0, '=');
        if e >= t.len() {
            LineParse::Bad
        } else {
            let k = spec_trim(t.subrange(0, e));
            let v = spec_unquote(spec_trim(t.subrange(e + 1, t.len() as int)));
            if k.len() == 0 {
                LineParse::Bad
            } else {
                LineParse::Pair(k, v)
            }
        }
    }
}

/// The pairs carried by the lines of `s` from position `i` on, in order,
/// or `None` on the first defective line.
pub open spec fn spec_parse_env_at(s: Seq<char>, i: int) -> Option<Seq<(Seq<char>, Seq<char>)>>
    decreases s.len() - i,
    via spec_parse_env_at_dec
{
    let j = find_from(s, i, '\n');
    let lp = parse_line(s.subrange(i, j));
    if j >= s.len() {
        match lp {
            LineParse::Bad => Option::None,
            LineParse::Skip => Option::Some(Seq::empty()),
            LineParse::Pair(k, v) => Option::Some(seq![(k, v)]),
        }
    } else {
        match lp {
            LineParse::Bad => Option::None,
            LineParse::Skip => spec_parse_env_at(s, j + 1),
            LineParse::Pair(k, v) => match spec_parse_env_at(s, j + 1) {
                Option::None => Option::None,
                Option::Some(r) => Option::Some(seq![(k, v)] + r),
            },
        }
    }
}

#[via_fn]
proof fn spec_parse_env_at_dec(s: Seq<char>, i: int) {
    lemma_find_from_ge(s, i, '\n');
}

/// The whole text of an environment-style source file, as pairs.
pub open spec fn spec_parse_env(s: Seq<char>) -> Option<Seq<(Seq<char>, Seq<char>)>> {
    spec_parse_env_at(s, 0)
}

/// Finds the first occurrence of `c` at or after `i`.
fn find_char(v: &Vec<char>, i: usize, c: char) -> (j: usize)
    requires
        i <= v@.len(),
    ensures
        j == find_from(v@, i as int, c),
        i <= j <= v@.len(),
{
    let mut k: usize = i;
    while k < v.len() && v[k] != c
        invariant
            i <= k <= v@.len(),
            find_from(v@, i as int, c) == find_from(v@, k as int, c),
        decreases v@.len() - k,
    {
        k = k + 1;
    }
    proof {
        lemma_find_from(v@, i as int, c);
    }
    k
}

/// Trims leading and trailing whitespace.
fn trim_vec(v: &Vec<char>) -> (r: Vec<char>)
    ensures
        r@ == spec_trim(v@),
{
    let mut a: usize = 0;
    while a < v.len() && is_ws_char(v[a])
        invariant
            a <= v@.len(),
            ws_front(v@, 0) == ws_front(v@, a as int),
        decreases v@.len() - a,
    {
        a = a + 1;
    }
    let mut b: usize = v.len();
    while b > 0 && is_ws_char(v[b - 1])
        invariant
            b <= v@.len(),
            ws_back(v@, v@.len() as int) == ws_back(v@, b as int),
        decreases b,
    {
        b = b - 1;
    }
    if a < b {
        subvec(v, a, b)
    } else {
        let r: Vec<char> = Vec::new();
        proof {
            if a == b {
                assert(r@ =~= v@.subrange(a as int, b as int));
            }
        }
        r
    }
}

fn is_ws_char(c: char) -> (r: bool)
    ensures
        r == is_ws(c),
{
    c == ' ' || c == '\t' || c == '\r'
}

/// Strips one pair of surrounding double quotes, when both are present.
fn unquote_vec(v: &Vec<char>) -> (r: Vec<char>)
    ensures
        r@ == spec_unquote(v@),
{
    if v.len() >= 2 && v[0] == '"' && v[v.len() - 1] == '"' {
        subvec(v, 1, v.len() - 1)
    } else {
        subvec(v, 0, v.len())
    }
}

enum LineKind {
    Skip,
    Pair(String, String),
    Bad,
}

/// Reads one line of source text.
fn parse_line_vec(line: &Vec<char>) -> (r: LineKind)
    ensures
        match parse_line(line@) {
            LineParse::Skip => r matches LineKind::Skip,
            LineParse::Bad => r matches LineKind::Bad,
            LineParse::Pair(k, v) => r matches LineKind::Pair(ks, vs) && ks@ == k && vs@ == v,
        },
{
    let t = trim_vec(line);
    if t.len() == 0 {
        return LineKind::Skip;
    }
    if t[0] == '#' {
        return LineKind::Skip;
    }
    let e = find_char(&t, 0, '=');
    if e >= t.len() {
        return LineKind::Bad;
    }
    let left = subvec(&t, 0, e);
    let k = trim_vec(&left);
    if k.len() == 0 {
        return LineKind::Bad;
    }
    let right = subvec(&t, e + 1, t.len());
    let vraw = trim_vec(&right);
    let val = unquote_vec(&vraw);
    LineKind::Pair(string_of(&k), string_of(&val))
}

impl EnvSource {
    /// An empty source, holding no pairs.
    pub fn new() -> (r: EnvSource)
        ensures
            r@ == Seq::<(Seq<char>, Seq<char>)>::empty(),
    {
        let r = EnvSource { pairs: Vec::new() };
        proof {
            assert(r@ =~= Seq::<(Seq<char>, Seq<char>)>::empty());
        }
        r
    }

    /// Appends one key/value pair.
    pub fn push(&mut self, key: String, value: String)
        ensures
            final(self)@ == old(self)@.push((key@, value@)),
    {
        let ghost kv = (key@, value@);
        self.pairs.push((key, value));
        proof {
            assert(self@ =~= old(self)@.push(kv));
        }
    }

    /// Parses the text of an environment-style source file.  `None` means
    /// the text is not a well-formed source (a non-comment line without
    /// `=` or without a key); the whole source is then unusable, never
    /// partially loaded.
    pub fn from_text(s: &str) -> (r: Option<EnvSource>)
        ensures
            match spec_parse_env(s@) {
                Option::None => r is None,
                Option::Some(ps) => r matches Some(src) && src@ == ps,
            },
    {
        let v = chars_of(s);
        let mut src = EnvSource::new();
        let mut i: usize = 0;
        proof {
            if spec_parse_env_at(s@, 0) is Some {
                assert(Seq::<(Seq<char>, Seq<char>)>::empty() + spec_parse_env_at(s@, 0).unwrap()
                    =~= spec_parse_env_at(s@, 0).unwrap());
            }
        }
        loop
            invariant
                v@ == s@,
                i <= v@.len(),
                spec_parse_env(s@) == match spec_parse_env_at(s@, i as int) {
                    Option::None => Option::<Seq<(Seq<char>, Seq<char>)>>::None,
                    Option::Some(r) => Option::Some(src@ + r),
                },
            decreases v@.len() - i,
        {
            let j = find_char(&v, i, '\n');
            let line = subvec(&v, i, j);
            proof {
                lemma_find_from(v@, i as int, '\n');
            }
            match parse_line_vec(&line) {
                LineKind::Bad => {
                    return None;
                },
                LineKind::Skip => {
                    if j >= v.len() {
                        proof {
                            assert(src@ + Seq::<(Seq<char>, Seq<char>)>::empty() =~= src@);
                        }
                        return Some(src);
                    }
                    i = j + 1;
                },
                LineKind::Pair(k, val) => {
                    let ghost kv = (k@, val@);
                    let ghost old_src = src@;
                    src.push(k, val);
                    if j >= v.len() {
                        proof {
                            assert(old_src + seq![kv] =~= src@);
                        }
                        return Some(src);
                    }
                    proof {
                        let rest = spec_parse_env_at(s@, j + 1);
                        if rest is Some {
                            assert(old_src + (seq![kv] + rest.unwrap()) =~= src@ + rest.unwrap());
                        }
                    }
                    i = j + 1;
                },
            }
        }
    }

    /// Looks the key up, returning a copy of the first matching value.
    pub fn get(&self, key: &str) -> (r: Option<String>)
        ensures
            match spec_lookup(self@, key@) {
                Option::None => r is None,
                Option::Some(v) => r matches Some(s) && s@ == v,
            },
    {
        let kc = chars_of(key);
        let mut i: usize = 0;
        proof {
            assert(self@.skip(0) =~= self@);
        }
        while i < self.pairs.len()
            invariant
                i <= self.pairs@.len(),
                kc@ == key@,
                self@.len() == self.pairs@.len(),
                spec_lookup(self@, key@) == spec_lookup(self@.skip(i as int), key@),
            decreases self.pairs@.len() - i,
        {
            let pc = chars_of(self.pairs[i].0.as_str());
            proof {
                assert(self@.skip(i as int)[0] == self@[i as int]);
                assert(self@.skip(i as int).skip(1) =~= self@.skip(i + 1 as int));
                assert(self@.skip(i as int).len() > 0);
            }
            if crate::text::chars_eq(&pc, &kc) {
                proof {
                    assert(self@[i as int].0 == key@);
                }
                return Some(self.pairs[i].1.clone());
            }
            proof {
                assert(self@[i as int].0 != key@);
            }
            i = i + 1;
        }
        proof {
            assert(self@.skip(i as int) =~= Seq::<(Seq<char>, Seq<char>)>::empty());
        }
        None
    }
}

} // verus!
