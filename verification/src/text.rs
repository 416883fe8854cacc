//! Text on which the rest of the crate stands: trimming, splitting, joining
//! and number formatting, each with its meaning as a sequence of characters.
use vstd::prelude::*;

verus! {

/// `String::push`: the string grows by one character at its end.
pub assume_specification[ String::push ](s: &mut String, c: char)
    ensures
        final(s)@ == old(s)@.push(c),
;

// ---------------------------------------------------------------------------
// Whitespace
// ---------------------------------------------------------------------------
/// The Unicode `White_Space` property.
pub open spec fn is_white(c: char) -> bool {
    let n = c as u32;
    ||| 9 <= n <= 13
    ||| n == 0x20
    ||| n == 0x85
    ||| n == 0xA0
    ||| n == 0x1680
    ||| 0x2000 <= n <= 0x200A
    ||| n == 0x2028
    ||| n == 0x2029
    ||| n == 0x202F
    ||| n == 0x205F
    ||| n == 0x3000
}

/// Whether `c` is Unicode white space.
pub fn white(c: char) -> (r: bool)
    ensures
        r == is_white(c),
{
    let n = c as u32;
    (9 <= n && n <= 13) || n == 0x20 || n == 0x85 || n == 0xA0 || n == 0x1680 || (0x2000 <= n && n
        <= 0x200A) || n == 0x2028 || n == 0x2029 || n == 0x202F || n == 0x205F || n == 0x3000
}

/// `s` without its leading characters that satisfy `p`.
pub open spec fn drop_leading(s: Seq<char>, p: spec_fn(char) -> bool) -> Seq<char>
    decreases s.len(),
{
    if s.len() > 0 && p(s[0]) {
        drop_leading(s.drop_first(), p)
    } else {
        s
    }
}

/// `s` without its trailing characters that satisfy `p`.
pub open spec fn drop_trailing(s: Seq<char>, p: spec_fn(char) -> bool) -> Seq<char>
    decreases s.len(),
{
    if s.len() > 0 && p(s.last()) {
        drop_trailing(s.drop_last(), p)
    } else {
        s
    }
}

/// `s` without white space at either end.
pub open spec fn trimmed(s: Seq<char>) -> Seq<char> {
    drop_trailing(drop_leading(s, |c: char| is_white(c)), |c: char| is_white(c))
}

/// The characters of `s`, one by one.
pub fn chars_of(s: &str) -> (r: Vec<char>)
    ensures
        r@ == s@,
{
    let mut out: Vec<char> = Vec::new();
    for c in it: s.chars()
        invariant
            out@ == it.seq().take(it.index() as int),
            it.seq() == s@,
    {
        out.push(c);
    }
    out
}

/// The characters of `v` from `from` to `to`, as a string.
pub fn text_between(v: &Vec<char>, from: usize, to: usize) -> (r: String)
    requires
        from <= to <= v@.len(),
    ensures
        r@ == v@.subrange(from as int, to as int),
{
    let mut out = String::new();
    let mut i: usize = from;
    while i < to
        invariant
            from <= i <= to <= v@.len(),
            out@ == v@.subrange(from as int, i as int),
        decreases to - i,
    {
        out.push(v[i]);
        assert(v@.subrange(from as int, i + 1) == v@.subrange(from as int, i as int).push(
            v@[i as int],
        ));
        i = i + 1;
    }
    out
}

/// Leading characters that satisfy `p` end at `k`.
pub proof fn lemma_drop_leading(s: Seq<char>, p: spec_fn(char) -> bool, k: int)
    requires
        0 <= k <= s.len(),
        forall|i: int| 0 <= i < k ==> p(s[i]),
        k < s.len() ==> !p(s[k]),
    ensures
        drop_leading(s, p) == s.subrange(k, s.len() as int),
    decreases k,
{
    if k > 0 {
        let t = s.drop_first();
        assert forall|i: int| 0 <= i < k - 1 implies p(t[i]) by {
            assert(t[i] == s[i + 1]);
        }
        lemma_drop_leading(t, p, k - 1);
        assert(t.subrange(k - 1, t.len() as int) == s.subrange(k, s.len() as int));
    } else {
        assert(s.subrange(0, s.len() as int) == s);
    }
}

/// Trailing characters that satisfy `p` begin at `k`.
pub proof fn lemma_drop_trailing(s: Seq<char>, p: spec_fn(char) -> bool, k: int)
    requires
        0 <= k <= s.len(),
        forall|i: int| k <= i < s.len() ==> p(s[i]),
        k > 0 ==> !p(s[k - 1]),
    ensures
        drop_trailing(s, p) == s.subrange(0, k),
    decreases s.len() - k,
{
    if k < s.len() {
        lemma_drop_trailing(s.drop_last(), p, k);
        assert(s.drop_last().subrange(0, k) == s.subrange(0, k));
    } else {
        assert(s.subrange(0, k) == s);
    }
}

/// `str::trim`: `s` without white space at either end.
pub fn trim(s: &str) -> (r: String)
    ensures
        r@ == trimmed(s@),
{
    let v = chars_of(s);
    let n = v.len();
    let mut from: usize = 0;
    while from < n && white(v[from])
        invariant
            n == v@.len(),
            from <= n,
            forall|i: int| 0 <= i < from ==> is_white(v@[i]),
        decreases n - from,
    {
        from = from + 1;
    }
    let mut to: usize = n;
    while from < to && white(v[to - 1])
        invariant
            n == v@.len(),
            from <= to <= n,
            forall|i: int| to <= i < n ==> is_white(v@[i]),
        decreases to,
    {
        to = to - 1;
    }
    proof {
        let p = |c: char| is_white(c);
        lemma_drop_leading(s@, p, from as int);
        let t = s@.subrange(from as int, n as int);
        lemma_drop_trailing(t, p, to - from);
        assert(t.subrange(0, to - from) == v@.subrange(from as int, to as int));
    }
    text_between(&v, from, to)
}

/// Whether `s` holds nothing but white space.
pub fn is_blank(s: &str) -> (r: bool)
    ensures
        r == (trimmed(s@).len() == 0),
{
    trim(s).as_str().is_empty()
}

/// `str::trim_start_matches` with a character: `s` without the `c`s it begins
/// with.
pub fn trim_start_char(s: &str, c: char) -> (r: String)
    ensures
        r@ == drop_leading(s@, |d: char| d == c),
{
    let v = chars_of(s);
    let n = v.len();
    let mut from: usize = 0;
    while from < n && v[from] == c
        invariant
            n == v@.len(),
            from <= n,
            forall|i: int| 0 <= i < from ==> v@[i] == c,
        decreases n - from,
    {
        from = from + 1;
    }
    proof {
        lemma_drop_leading(s@, |d: char| d == c, from as int);
    }
    text_between(&v, from, n)
}

/// `str::trim_end_matches` with a character: `s` without the `c`s it ends
/// with.
pub fn trim_end_char(s: &str, c: char) -> (r: String)
    ensures
        r@ == drop_trailing(s@, |d: char| d == c),
{
    let v = chars_of(s);
    let n = v.len();
    let mut to: usize = n;
    while 0 < to && v[to - 1] == c
        invariant
            n == v@.len(),
            to <= n,
            forall|i: int| to <= i < n ==> v@[i] == c,
        decreases to,
    {
        to = to - 1;
    }
    proof {
        lemma_drop_trailing(s@, |d: char| d == c, to as int);
    }
    text_between(&v, 0, to)
}

/// What stays of the front is a suffix whose first character is no match.
proof fn lemma_drop_leading_cut(s: Seq<char>, p: spec_fn(char) -> bool) -> (k: int)
    ensures
        0 <= k <= s.len(),
        drop_leading(s, p) == s.subrange(k, s.len() as int),
        k < s.len() ==> !p(s[k]),
        forall|i: int| 0 <= i < k ==> p(s[i]),
    decreases s.len(),
{
    if s.len() > 0 && p(s[0]) {
        let t = s.drop_first();
        let j = lemma_drop_leading_cut(t, p);
        assert(t.subrange(j, t.len() as int) =~= s.subrange(j + 1, s.len() as int));
        assert forall|i: int| 0 <= i < j + 1 implies p(s[i]) by {
            if i > 0 {
                assert(t[i - 1] == s[i]);
            }
        }
        j + 1
    } else {
        assert(s.subrange(0, s.len() as int) =~= s);
        0
    }
}

/// What stays of the back is a prefix whose last character is no match.
pub proof fn lemma_drop_trailing_cut(s: Seq<char>, p: spec_fn(char) -> bool) -> (k: int)
    ensures
        0 <= k <= s.len(),
        drop_trailing(s, p) == s.subrange(0, k),
        k > 0 ==> !p(s[k - 1]),
        forall|i: int| k <= i < s.len() ==> p(s[i]),
    decreases s.len(),
{
    if s.len() > 0 && p(s.last()) {
        let t = s.drop_last();
        let k = lemma_drop_trailing_cut(t, p);
        assert(t.subrange(0, k) =~= s.subrange(0, k));
        assert forall|i: int| k <= i < s.len() implies p(s[i]) by {
            if i < t.len() {
                assert(t[i] == s[i]);
            }
        }
        k
    } else {
        assert(s.subrange(0, s.len() as int) =~= s);
        s.len() as int
    }
}

/// Trimming cuts `s` at two places and leaves no white space at either end.
pub proof fn lemma_trimmed_cut(s: Seq<char>) -> (r: (int, int))
    ensures
        0 <= r.0 <= r.1 <= s.len(),
        trimmed(s) == s.subrange(r.0, r.1),
        forall|i: int| 0 <= i < r.0 || r.1 <= i < s.len() ==> is_white(#[trigger] s[i]),
        r.0 < r.1 ==> !is_white(s[r.0]) && !is_white(s[r.1 - 1]),
{
    let p = |c: char| is_white(c);
    let a = lemma_drop_leading_cut(s, p);
    let t = s.subrange(a, s.len() as int);
    let k = lemma_drop_trailing_cut(t, p);
    let b = a + k;
    assert(t.subrange(0, k) =~= s.subrange(a, b));
    assert forall|i: int| 0 <= i < a || b <= i < s.len() implies is_white(#[trigger] s[i]) by {
        if i < a {
            assert(p(s[i]));
        } else {
            assert(t[i - a] == s[i]);
            assert(p(t[i - a]));
        }
    }
    if a < b {
        assert(t[0] == s[a]);
        assert(t[k - 1] == s[b - 1]);
        assert(!p(s[a]));
        assert(!p(t[k - 1]));
    }
    (a, b)
}

/// Text without white space at its ends stays as it is.
pub proof fn lemma_trimmed_identity(s: Seq<char>)
    requires
        s.len() > 0 ==> !is_white(s[0]) && !is_white(s.last()),
    ensures
        trimmed(s) == s,
{
    let p = |c: char| is_white(c);
    lemma_drop_leading(s, p, 0);
    assert(s.subrange(0, s.len() as int) =~= s);
    lemma_drop_trailing(s, p, s.len() as int);
}

/// Trimming twice is trimming once.
pub proof fn trimming_is_idempotent(s: Seq<char>)
    ensures
        trimmed(trimmed(s)) == trimmed(s),
{
    let (a, b) = lemma_trimmed_cut(s);
    let t = trimmed(s);
    if a < b {
        assert(t[0] == s[a]);
        assert(t.last() == s[b - 1]);
    }
    lemma_trimmed_identity(t);
}

/// White space around a text does not count.
pub proof fn padding_does_not_count(a: Seq<char>, s: Seq<char>, b: Seq<char>)
    requires
        forall|i: int| 0 <= i < a.len() ==> is_white(#[trigger] a[i]),
        forall|i: int| 0 <= i < b.len() ==> is_white(#[trigger] b[i]),
    ensures
        trimmed(a + s + b) == trimmed(s),
{
    let p = |c: char| is_white(c);
    let (x, y) = lemma_trimmed_cut(s);
    let t = a + s + b;
    let n = a.len() as int;
    if x < y {
        assert forall|i: int| 0 <= i < n + x implies p(t[i]) by {
            if i < n {
                assert(t[i] == a[i]);
            } else {
                assert(t[i] == s[i - n]);
            }
        }
        assert(t[n + x] == s[x]);
        lemma_drop_leading(t, p, n + x);
        let u = t.subrange(n + x, t.len() as int);
        assert forall|i: int| y - x <= i < u.len() implies p(u[i]) by {
            if i + n + x < n + s.len() {
                assert(u[i] == s[i + x]);
            } else {
                assert(u[i] == b[i + x - s.len()]);
            }
        }
        assert(u[y - x - 1] == s[y - 1]);
        lemma_drop_trailing(u, p, y - x);
        assert(u.subrange(0, y - x) =~= s.subrange(x, y));
    } else {
        assert forall|i: int| 0 <= i < t.len() implies p(t[i]) by {
            if i < n {
                assert(t[i] == a[i]);
            } else if i < n + s.len() {
                assert(t[i] == s[i - n]);
            } else {
                assert(t[i] == b[i - n - s.len()]);
            }
        }
        lemma_drop_leading(t, p, t.len() as int);
        let e = t.subrange(t.len() as int, t.len() as int);
        lemma_drop_trailing(e, p, 0);
        assert(e.subrange(0, 0) =~= s.subrange(x, y));
    }
}

// ---------------------------------------------------------------------------
// Letter case
// ---------------------------------------------------------------------------
/// The ASCII lower-case form of `c`; other characters stay as they are.
pub open spec fn ascii_lower(c: char) -> char {
    if 'A' <= c <= 'Z' {
        ((c as u32) + 32) as char
    } else {
        c
    }
}

/// Every character of `s` in its ASCII lower-case form.
pub open spec fn lowered(s: Seq<char>) -> Seq<char> {
    s.map_values(|c: char| ascii_lower(c))
}

/// `str::to_ascii_lowercase`.
pub fn to_lower(s: &str) -> (r: String)
    ensures
        r@ == lowered(s@),
{
    let mut out = String::new();
    for c in it: s.chars()
        invariant
            out@ == lowered(it.seq().take(it.index() as int)),
            it.seq() == s@,
    {
        let d = if 'A' <= c && c <= 'Z' {
            ((c as u8) + 32) as char
        } else {
            c
        };
        assert(d == ascii_lower(c));
        out.push(d);
        assert(it.seq().take(it.index() + 1) == it.seq().take(it.index() as int).push(c));
        assert(out@ == lowered(it.seq().take(it.index() + 1)));
    }
    out
}

// ---------------------------------------------------------------------------
// Prefixes, lines and pieces
// ---------------------------------------------------------------------------
/// Whether `s` begins with `prefix`.
pub open spec fn begins_with(s: Seq<char>, prefix: Seq<char>) -> bool {
    prefix.len() <= s.len() && s.subrange(0, prefix.len() as int) == prefix
}

/// Two strings hold the same characters.
pub fn same_text(a: &str, b: &str) -> (r: bool)
    ensures
        r == (a@ == b@),
{
    let v = chars_of(a);
    let w = chars_of(b);
    if v.len() != w.len() {
        return false;
    }
    let mut i: usize = 0;
    while i < v.len()
        invariant
            i <= v@.len() == w@.len(),
            forall|j: int| 0 <= j < i ==> v@[j] == w@[j],
            v@ == a@,
            w@ == b@,
        decreases v@.len() - i,
    {
        if v[i] != w[i] {
            assert(a@[i as int] != b@[i as int]);
            return false;
        }
        i = i + 1;
    }
    assert(a@ =~= b@);
    true
}

/// `str::strip_prefix`: what follows `prefix` in `s`, if `s` begins with it.
pub fn strip_prefix(s: &str, prefix: &str) -> (r: Option<String>)
    ensures
        begins_with(s@, prefix@) <==> r is Some,
        r matches Some(t) ==> t@ == s@.subrange(prefix@.len() as int, s@.len() as int),
{
    let v = chars_of(s);
    let w = chars_of(prefix);
    if w.len() > v.len() {
        return None;
    }
    let mut i: usize = 0;
    while i < w.len()
        invariant
            i <= w@.len() <= v@.len(),
            forall|j: int| 0 <= j < i ==> v@[j] == w@[j],
            v@ == s@,
            w@ == prefix@,
        decreases w@.len() - i,
    {
        if v[i] != w[i] {
            assert(s@.subrange(0, prefix@.len() as int)[i as int] != prefix@[i as int]);
            return None;
        }
        i = i + 1;
    }
    assert(s@.subrange(0, prefix@.len() as int) =~= prefix@);
    Some(text_between(&v, w.len(), v.len()))
}

/// `str::starts_with`.
pub fn starts_with(s: &str, prefix: &str) -> (r: bool)
    ensures
        r == begins_with(s@, prefix@),
{
    strip_prefix(s, prefix).is_some()
}

/// The part of `s` before its first `c`, or all of it.
pub open spec fn up_to(s: Seq<char>, c: char) -> Seq<char>
    decreases s.len(),
{
    if s.len() == 0 || s[0] == c {
        Seq::empty()
    } else {
        seq![s[0]] + up_to(s.drop_first(), c)
    }
}

/// The first `c` of `s` stands at `k`.
pub proof fn lemma_up_to(s: Seq<char>, c: char, k: int)
    requires
        0 <= k <= s.len(),
        forall|i: int| 0 <= i < k ==> s[i] != c,
        k < s.len() ==> s[k] == c,
    ensures
        up_to(s, c) == s.subrange(0, k),
    decreases k,
{
    if k > 0 {
        let t = s.drop_first();
        assert forall|i: int| 0 <= i < k - 1 implies t[i] != c by {
            assert(t[i] == s[i + 1]);
        }
        lemma_up_to(t, c, k - 1);
        assert(seq![s[0]] + t.subrange(0, k - 1) =~= s.subrange(0, k));
    } else {
        assert(s.subrange(0, 0) =~= Seq::empty());
    }
}

/// The part of `s` before its first `c`, or all of it.
pub fn before_char(s: &str, c: char) -> (r: String)
    ensures
        r@ == up_to(s@, c),
{
    let v = chars_of(s);
    let n = v.len();
    let mut to: usize = 0;
    while to < n && v[to] != c
        invariant
            n == v@.len(),
            to <= n,
            forall|i: int| 0 <= i < to ==> v@[i] != c,
        decreases n - to,
    {
        to = to + 1;
    }
    proof {
        lemma_up_to(s@, c, to as int);
    }
    text_between(&v, 0, to)
}

/// The pieces of `s` between its `c`s: one more than there are `c`s.
pub open spec fn pieces(s: Seq<char>, c: char) -> Seq<Seq<char>>
    decreases s.len(),
{
    if s.len() == 0 {
        seq![Seq::empty()]
    } else if s.last() == c {
        pieces(s.drop_last(), c).push(Seq::empty())
    } else {
        let t = pieces(s.drop_last(), c);
        t.drop_last().push(t.last().push(s.last()))
    }
}

/// There is always a piece.
pub proof fn lemma_pieces_some(s: Seq<char>, c: char)
    ensures
        pieces(s, c).len() > 0,
    decreases s.len(),
{
    if s.len() > 0 {
        lemma_pieces_some(s.drop_last(), c);
    }
}

/// Text without a `c` is one piece.
pub proof fn lemma_pieces_single(s: Seq<char>, c: char)
    requires
        !s.contains(c),
    ensures
        pieces(s, c) == seq![s],
    decreases s.len(),
{
    if s.len() > 0 {
        let t = s.drop_last();
        assert(s.last() != c) by {
            if s.last() == c {
                assert(s.contains(c));
            }
        }
        assert(!t.contains(c)) by {
            if t.contains(c) {
                let i = choose|i: int| 0 <= i < t.len() && t[i] == c;
                assert(s[i] == c);
            }
        }
        lemma_pieces_single(t, c);
        assert(t.push(s.last()) =~= s);
        assert(pieces(s, c) =~= seq![s]);
    } else {
        assert(s =~= Seq::empty());
    }
}

/// A `c` parts the pieces before it from those after it.
pub proof fn lemma_pieces_concat(a: Seq<char>, b: Seq<char>, c: char)
    ensures
        pieces(a.push(c) + b, c) == pieces(a, c) + pieces(b, c),
    decreases b.len(),
{
    let s = a.push(c) + b;
    lemma_pieces_some(a, c);
    lemma_pieces_some(b, c);
    if b.len() == 0 {
        assert(s =~= a.push(c));
        assert(s.drop_last() =~= a);
        assert(pieces(s, c) =~= pieces(a, c) + pieces(b, c));
    } else {
        let d = b.drop_last();
        lemma_pieces_concat(a, d, c);
        lemma_pieces_some(d, c);
        assert(s.drop_last() =~= a.push(c) + d);
        assert(s.last() == b.last());
        assert(pieces(s, c) =~= pieces(a, c) + pieces(b, c));
    }
}

/// What the strings of a list hold.
pub open spec fn texts(v: Seq<String>) -> Seq<Seq<char>> {
    v.map_values(|s: String| s@)
}

/// What a string holds, where there is one.
pub open spec fn optional_text(s: Option<String>) -> Option<Seq<char>> {
    match s {
        Some(t) => Some(t@),
        None => None,
    }
}

/// What a string holds, or the default where there is none.
pub open spec fn text_or(s: Option<String>, default: Seq<char>) -> Seq<char> {
    match s {
        Some(t) => t@,
        None => default,
    }
}

/// The string that was given, or the default.
pub fn given_or(s: Option<String>, default: &str) -> (r: String)
    ensures
        r@ == text_or(s, default@),
{
    match s {
        Some(t) => t,
        None => default.to_string(),
    }
}

/// `str::split` with a character.
pub fn split_char(s: &str, c: char) -> (r: Vec<String>)
    ensures
        texts(r@) == pieces(s@, c),
{
    let mut out: Vec<String> = Vec::new();
    let mut cur = String::new();
    for d in it: s.chars()
        invariant
            it.seq() == s@,
            texts(out@).push(cur@) == pieces(it.seq().take(it.index() as int), c),
    {
        let ghost before = it.seq().take(it.index() as int);
        proof {
            let next = it.seq().take(it.index() + 1);
            assert(next.drop_last() =~= before);
            assert(next.last() == d);
            lemma_pieces_some(before, c);
        }
        if d == c {
            out.push(cur);
            cur = String::new();
            assert(texts(out@).push(cur@) =~= pieces(it.seq().take(it.index() + 1), c));
        } else {
            let ghost was = texts(out@).push(cur@);
            cur.push(d);
            assert(was.drop_last() =~= texts(out@));
            assert(texts(out@).push(cur@) =~= pieces(it.seq().take(it.index() + 1), c));
        }
    }
    assert(s@.take(s@.len() as int) =~= s@);
    let ghost parts = texts(out@);
    let ghost end = cur@;
    out.push(cur);
    assert(texts(out@) =~= parts.push(end));
    out
}

/// The pieces of a list with `sep` between each two.
pub open spec fn joined(v: Seq<Seq<char>>, sep: Seq<char>) -> Seq<char>
    decreases v.len(),
{
    if v.len() == 0 {
        Seq::empty()
    } else if v.len() == 1 {
        v[0]
    } else {
        joined(v.drop_last(), sep) + sep + v.last()
    }
}

/// `[String]::join`.
pub fn join(v: &Vec<String>, sep: &str) -> (r: String)
    ensures
        r@ == joined(texts(v@), sep@),
{
    let mut out = String::new();
    let mut i: usize = 0;
    while i < v.len()
        invariant
            i <= v@.len(),
            out@ == joined(texts(v@).take(i as int), sep@),
        decreases v@.len() - i,
    {
        proof {
            let next = texts(v@).take(i + 1);
            assert(next.drop_last() =~= texts(v@).take(i as int));
            assert(next.last() == v@[i as int]@);
        }
        if i > 0 {
            out.append(sep);
        }
        out.append(v[i].as_str());
        if i == 0 {
            assert(out@ =~= v@[0]@);
        }
        i = i + 1;
    }
    assert(texts(v@).take(v@.len() as int) =~= texts(v@));
    out
}

/// Splitting at `c` and joining with `c` gives the text back.
pub proof fn lemma_join_pieces(s: Seq<char>, c: char)
    ensures
        joined(pieces(s, c), seq![c]) == s,
    decreases s.len(),
{
    if s.len() > 0 {
        let t = s.drop_last();
        lemma_join_pieces(t, c);
        lemma_pieces_some(t, c);
        let p = pieces(t, c);
        if s.last() == c {
            assert(p.push(Seq::empty()).drop_last() =~= p);
            assert(joined(p.push(Seq::empty()), seq![c]) =~= t + seq![c] + Seq::<char>::empty());
            assert(t + seq![c] + Seq::<char>::empty() =~= s);
        } else {
            let q = p.drop_last().push(p.last().push(s.last()));
            assert(q.drop_last() =~= p.drop_last());
            assert(joined(q, seq![c]) =~= joined(p, seq![c]).push(s.last()));
            assert(t.push(s.last()) =~= s);
        }
    }
}

/// Texts without a `c` in them come apart again where they were joined.
pub proof fn lemma_pieces_of_joined(v: Seq<Seq<char>>, c: char)
    requires
        v.len() > 0,
        forall|i: int| 0 <= i < v.len() ==> !(#[trigger] v[i]).contains(c),
    ensures
        pieces(joined(v, seq![c]), c) == v,
    decreases v.len(),
{
    if v.len() == 1 {
        lemma_pieces_single(v[0], c);
        assert(v =~= seq![v[0]]);
    } else {
        let w = v.drop_last();
        assert forall|i: int| 0 <= i < w.len() implies !(#[trigger] w[i]).contains(c) by {
            assert(w[i] == v[i]);
        }
        lemma_pieces_of_joined(w, c);
        assert(!v[v.len() - 1].contains(c));
        lemma_pieces_single(v.last(), c);
        let a = joined(w, seq![c]);
        lemma_pieces_concat(a, v.last(), c);
        assert(a + seq![c] + v.last() =~= a.push(c) + v.last());
        assert(w + seq![v.last()] =~= v);
    }
}

// ---------------------------------------------------------------------------
// Joining and numbers
// ---------------------------------------------------------------------------
/// `a` followed by `b`.
pub fn concat2(a: &str, b: &str) -> (r: String)
    ensures
        r@ == a@ + b@,
{
    let mut out = String::new();
    out.append(a);
    out.append(b);
    assert(out@ =~= a@ + b@);
    out
}

/// `a`, `b` and `c` one after the other.
pub fn concat3(a: &str, b: &str, c: &str) -> (r: String)
    ensures
        r@ == a@ + b@ + c@,
{
    let mut out = concat2(a, b);
    out.append(c);
    out
}

/// The decimal digit `n`.
pub open spec fn digit(n: nat) -> char {
    (48 + n) as char
}

/// `n` in decimal digits, without leading zeros.
pub open spec fn decimal(n: nat) -> Seq<char>
    decreases n,
{
    if n < 10 {
        seq![digit(n)]
    } else {
        decimal(n / 10).push(digit(n % 10))
    }
}

/// `u64::to_string`.
pub fn decimal_text(n: u64) -> (r: String)
    ensures
        r@ == decimal(n as nat),
    decreases n,
{
    let d = ((n % 10) as u8 + 48) as char;
    let mut out = if n < 10 {
        String::new()
    } else {
        decimal_text(n / 10)
    };
    out.push(d);
    assert(out@ =~= decimal(n as nat));
    out
}

/// `n` in decimal digits, with a minus sign in front of a negative number.
pub open spec fn signed_decimal(n: int) -> Seq<char> {
    if n < 0 {
        seq!['-'] + decimal((-n) as nat)
    } else {
        decimal(n as nat)
    }
}

/// `i32::to_string`.
pub fn signed_decimal_text(n: i32) -> (r: String)
    ensures
        r@ == signed_decimal(n as int),
{
    if n < 0 {
        let digits = decimal_text((-(n as i64)) as u64);
        let mut out = String::new();
        out.push('-');
        out.append(digits.as_str());
        assert(out@ =~= signed_decimal(n as int));
        out
    } else {
        decimal_text(n as u64)
    }
}

// ---------------------------------------------------------------------------
// Laws
// ---------------------------------------------------------------------------
/// The number that decimal digits spell.
pub open spec fn number_of(s: Seq<char>) -> int
    decreases s.len(),
{
    if s.len() == 0 {
        0
    } else {
        10 * number_of(s.drop_last()) + (s.last() as u32 - 48)
    }
}

/// The digits of a number spell the number, and nothing but digits is written;
/// a number other than zero does not begin with a zero.
pub proof fn decimal_spells_the_number(n: nat)
    ensures
        decimal(n).len() > 0,
        forall|i: int| 0 <= i < decimal(n).len() ==> '0' <= #[trigger] decimal(n)[i] <= '9',
        number_of(decimal(n)) == n,
        n > 0 ==> decimal(n)[0] != '0',
    decreases n,
{
    if n < 10 {
        assert(decimal(n).drop_last() =~= Seq::empty());
        assert(number_of(Seq::<char>::empty()) == 0);
    } else {
        decimal_spells_the_number(n / 10);
        assert(decimal(n).drop_last() =~= decimal(n / 10));
        assert(decimal(n)[0] == decimal(n / 10)[0]);
    }
}

/// A signed number is its digits, behind a minus sign if it is negative.
pub proof fn signed_decimal_spells_the_number(n: int)
    ensures
        n >= 0 ==> number_of(signed_decimal(n)) == n && signed_decimal(n)[0] != '-',
        n < 0 ==> signed_decimal(n)[0] == '-' && number_of(signed_decimal(n).drop_first()) == -n,
{
    if n >= 0 {
        decimal_spells_the_number(n as nat);
    } else {
        decimal_spells_the_number((-n) as nat);
        assert(signed_decimal(n).drop_first() =~= decimal((-n) as nat));
    }
}

/// Lower case changes the letters from A to Z, each into the one 32 places
/// behind it, and nothing else; no character is lost.
pub proof fn lowering_changes_capitals_alone(s: Seq<char>)
    ensures
        lowered(s).len() == s.len(),
        forall|i: int|
            0 <= i < s.len() ==> #[trigger] lowered(s)[i] as int == (if 65 <= s[i] as int <= 90 {
                s[i] as int + 32
            } else {
                s[i] as int
            }),
{
}

/// What was given is kept, and the default stands in for nothing else.
pub proof fn what_is_given_is_kept(s: String, default: Seq<char>)
    ensures
        text_or(Some(s), default) == s@,
        text_or(None, default) == default,
{
}

/// Texts are joined in order, with the separator between each two and nowhere
/// else.
pub proof fn joining_adds_separators(a: Seq<Seq<char>>, b: Seq<Seq<char>>, sep: Seq<char>)
    ensures
        a.len() > 0 && b.len() > 0 ==> joined(a + b, sep) == joined(a, sep) + sep + joined(b, sep),
        a.len() == 0 ==> joined(a, sep).len() == 0,
        a.len() == 1 ==> joined(a, sep) == a[0],
    decreases b.len(),
{
    if a.len() > 0 && b.len() > 0 {
        let c = b.drop_last();
        assert((a + b).drop_last() =~= a + c);
        assert((a + b).last() == b.last());
        if c.len() == 0 {
            assert(a + c =~= a);
            assert(joined(a + b, sep) =~= joined(a, sep) + sep + joined(b, sep));
        } else {
            joining_adds_separators(a, c, sep);
            assert(joined(a + b, sep) =~= joined(a, sep) + sep + joined(b, sep));
        }
    }
}

/// White space is the tab, the line feed, the vertical tab, the form feed, the
/// carriage return, the space, the next line, and the spaces and separators that
/// Unicode counts to it; nothing else is.
pub proof fn white_space_is_as_unicode_says(c: char)
    ensures
        is_white(c) <==> c == '\t' || c == '\n' || c == '\u{B}' || c == '\u{C}' || c == '\r' || c
            == ' ' || c == '\u{85}' || c == '\u{A0}' || c == '\u{1680}' || '\u{2000}' <= c
            <= '\u{200A}' || c == '\u{2028}' || c == '\u{2029}' || c == '\u{202F}' || c
            == '\u{205F}' || c == '\u{3000}',
{
}

/// Texts are read as the characters that they hold, in order, and a text that is
/// missing stays missing.
pub proof fn texts_are_read_whole(v: Seq<String>, s: Option<String>)
    ensures
        texts(v).len() == v.len(),
        forall|i: int| 0 <= i < v.len() ==> #[trigger] texts(v)[i] == v[i]@,
        s is None <==> optional_text(s) is None,
        s matches Some(t) ==> optional_text(s) == Some(t@),
{
}

/// A text begins with a prefix exactly if it is the prefix and something behind
/// it.
pub proof fn a_prefix_stands_in_front(prefix: Seq<char>, rest: Seq<char>, s: Seq<char>)
    ensures
        begins_with(prefix + rest, prefix),
        begins_with(s, prefix) ==> prefix.len() <= s.len() && s == prefix + s.skip(
            prefix.len() as int,
        ),
{
    assert((prefix + rest).subrange(0, prefix.len() as int) =~= prefix);
    if begins_with(s, prefix) {
        assert(s =~= s.subrange(0, prefix.len() as int) + s.skip(prefix.len() as int));
    }
}

} // verus!
