//! The `text/event-stream` framing of the answer stream, as it is written by
//! the server and read by the browser.
use crate::text::{
    begins_with, chars_of, drop_leading, drop_trailing, is_white, join, joined, pieces, split_char,
    strip_prefix, text_between, texts, trim, trim_end_char, trim_start_char, trimmed,
};
use vstd::prelude::*;

verus! {

// ---------------------------------------------------------------------------
// Blocks
// ---------------------------------------------------------------------------
/// Where the first blank line of `s` begins: the first newline that another
/// one follows.
pub open spec fn blank_line(s: Seq<char>) -> Option<int>
    decreases s.len(),
{
    if s.len() < 2 {
        None
    } else if s[0] == '\n' && s[1] == '\n' {
        Some(0)
    } else {
        match blank_line(s.drop_first()) {
            Some(i) => Some(i + 1),
            None => None,
        }
    }
}

/// The first blank line begins at `k`.
pub proof fn lemma_blank_line_at(s: Seq<char>, k: int)
    requires
        0 <= k < s.len() - 1,
        s[k] == '\n' && s[k + 1] == '\n',
        forall|i: int| 0 <= i < k ==> !(s[i] == '\n' && #[trigger] s[i + 1] == '\n'),
    ensures
        blank_line(s) == Some(k),
    decreases k,
{
    if k > 0 {
        let t = s.drop_first();
        assert(!(s[0] == '\n' && s[0int + 1] == '\n'));
        assert forall|i: int| 0 <= i < k - 1 implies !(t[i] == '\n' && #[trigger] t[i + 1]
            == '\n') by {
            assert(t[i] == s[i + 1]);
            assert(t[i + 1] == s[i + 1 + 1]);
        }
        lemma_blank_line_at(t, k - 1);
    }
}

/// There is no blank line.
pub proof fn lemma_no_blank_line(s: Seq<char>)
    requires
        forall|i: int| 0 <= i < s.len() - 1 ==> !(s[i] == '\n' && #[trigger] s[i + 1] == '\n'),
    ensures
        blank_line(s) is None,
    decreases s.len(),
{
    if s.len() >= 2 {
        let t = s.drop_first();
        assert(!(s[0] == '\n' && s[0int + 1] == '\n'));
        assert forall|i: int| 0 <= i < t.len() - 1 implies !(t[i] == '\n' && #[trigger] t[i + 1]
            == '\n') by {
            assert(t[i] == s[i + 1]);
            assert(t[i + 1] == s[i + 1 + 1]);
        }
        lemma_no_blank_line(t);
    }
}

/// What a found blank line means.
pub proof fn lemma_blank_line_found(s: Seq<char>)
    ensures
        blank_line(s) matches Some(k) ==> 0 <= k < s.len() - 1 && s[k] == '\n' && s[k + 1] == '\n'
            && forall|i: int| 0 <= i < k ==> !(s[i] == '\n' && #[trigger] s[i + 1] == '\n'),
        blank_line(s) is None ==> forall|i: int|
            0 <= i < s.len() - 1 ==> !(s[i] == '\n' && #[trigger] s[i + 1] == '\n'),
    decreases s.len(),
{
    if s.len() >= 2 && !(s[0] == '\n' && s[1] == '\n') {
        let t = s.drop_first();
        lemma_blank_line_found(t);
        match blank_line(t) {
            Some(k) => {
                assert(s[k + 1] == t[k] && s[k + 2] == t[k + 1]);
                assert forall|i: int| 0 <= i < k + 1 implies !(s[i] == '\n' && #[trigger] s[i + 1]
                    == '\n') by {
                    if i > 0 {
                        assert(t[i - 1] == s[i]);
                        assert(t[i - 1 + 1] == s[i + 1]);
                    }
                }
            },
            None => {
                assert forall|i: int| 0 <= i < s.len() - 1 implies !(s[i] == '\n' && #[trigger] s[i
                    + 1] == '\n') by {
                    if i > 0 {
                        assert(t[i - 1] == s[i]);
                        assert(t[i - 1 + 1] == s[i + 1]);
                    }
                }
            },
        }
    }
}

/// Takes the first complete block, and the blank line that ends it, off the
/// buffer. Without a blank line the buffer waits as it is.
pub fn take_block(buffer: &mut String) -> (r: Option<String>)
    ensures
        blank_line(old(buffer)@) is None ==> r is None && final(buffer)@ == old(buffer)@,
        blank_line(old(buffer)@) matches Some(k) ==> {
            &&& 0 <= k < old(buffer)@.len() - 1
            &&& r matches Some(b) && b@ == old(buffer)@.subrange(0, k)
            &&& final(buffer)@ == old(buffer)@.subrange(k + 2, old(buffer)@.len() as int)
        },
{
    let v = chars_of(buffer.as_str());
    let n = v.len();
    let mut i: usize = 0;
    while n - i > 1
        invariant
            n == v@.len(),
            v@ == buffer@,
            buffer@ == old(buffer)@,
            i <= n,
            forall|j: int| 0 <= j < i ==> !(v@[j] == '\n' && #[trigger] v@[j + 1] == '\n'),
        decreases n - i,
    {
        if v[i] == '\n' && v[i + 1] == '\n' {
            proof {
                lemma_blank_line_at(v@, i as int);
            }
            let block = text_between(&v, 0, i);
            *buffer = text_between(&v, i + 2, n);
            return Some(block);
        }
        i = i + 1;
    }
    proof {
        lemma_no_blank_line(v@);
    }
    None
}

// ---------------------------------------------------------------------------
// Fields
// ---------------------------------------------------------------------------
/// The fields that the lines of a block have set: the event's kind, if a line
/// named it, and the data lines in order.
pub struct Fields {
    pub kind: Option<Seq<char>>,
    pub data: Seq<Seq<char>>,
}

/// The fields after one more line. Carriage returns at its end do not count; a
/// line that is neither an `event:` nor a `data:` line changes nothing.
pub open spec fn with_line(f: Fields, line: Seq<char>) -> Fields {
    let l = drop_trailing(line, |c: char| c == '\r');
    if begins_with(l, "event:"@) {
        Fields { kind: Some(trimmed(l.subrange("event:"@.len() as int, l.len() as int))), ..f }
    } else if begins_with(l, "data:"@) {
        Fields {
            data: f.data.push(
                drop_leading(
                    l.subrange("data:"@.len() as int, l.len() as int),
                    |c: char| c == ' ',
                ),
            ),
            ..f
        }
    } else {
        f
    }
}

/// The fields that the lines set, the last `event:` line prevailing.
pub open spec fn fields_of(lines: Seq<Seq<char>>) -> Fields
    decreases lines.len(),
{
    if lines.len() == 0 {
        Fields { kind: None, data: Seq::empty() }
    } else {
        with_line(fields_of(lines.drop_last()), lines.last())
    }
}

/// The kind that a block names, empty if it names none.
pub open spec fn block_kind(block: Seq<char>) -> Seq<char> {
    match fields_of(pieces(block, '\n')).kind {
        Some(k) => k,
        None => Seq::empty(),
    }
}

/// The data lines of a block, joined by newlines.
pub open spec fn block_data(block: Seq<char>) -> Seq<char> {
    joined(fields_of(pieces(block, '\n')).data, "\n"@)
}

/// The kind and the data of a block.
pub fn read_block(block: &str) -> (r: (String, String))
    ensures
        r.0@ == block_kind(block@),
        r.1@ == block_data(block@),
{
    let lines = split_char(block, '\n');
    let mut kind = String::new();
    let mut data: Vec<String> = Vec::new();
    let mut i: usize = 0;
    let ghost mut named = false;
    while i < lines.len()
        invariant
            i <= lines@.len(),
            texts(lines@) == pieces(block@, '\n'),
            fields_of(texts(lines@).take(i as int)).data == texts(data@),
            fields_of(texts(lines@).take(i as int)).kind == (if named {
                Some(kind@)
            } else {
                None
            }),
            !named ==> kind@ == Seq::<char>::empty(),
        decreases lines@.len() - i,
    {
        let ghost f = fields_of(texts(lines@).take(i as int));
        proof {
            let next = texts(lines@).take(i + 1);
            assert(next.drop_last() =~= texts(lines@).take(i as int));
            assert(next.last() == lines@[i as int]@);
        }
        let line = trim_end_char(lines[i].as_str(), '\r');
        if let Some(rest) = strip_prefix(line.as_str(), "event:") {
            kind = trim(rest.as_str());
            proof {
                named = true;
            }
        } else if let Some(rest) = strip_prefix(line.as_str(), "data:") {
            let ghost was = texts(data@);
            let d = trim_start_char(rest.as_str(), ' ');
            let ghost dv = d@;
            data.push(d);
            assert(texts(data@) =~= was.push(dv));
        }
        i = i + 1;
    }
    assert(texts(lines@).take(lines@.len() as int) =~= texts(lines@));
    (kind, join(&data, "\n"))
}

// ---------------------------------------------------------------------------
// The written form
// ---------------------------------------------------------------------------
/// The lines that carry `data`: one for each of its lines, none if it is
/// empty.
pub open spec fn data_lines(data: Seq<char>) -> Seq<Seq<char>> {
    if data.len() == 0 {
        Seq::empty()
    } else {
        pieces(data, '\n').map_values(|l: Seq<char>| "data: "@ + l)
    }
}

/// An event as its block of lines, without the blank line that ends it.
pub open spec fn event_block(kind: Seq<char>, data: Seq<char>) -> Seq<char> {
    joined(seq!["event: "@ + kind] + data_lines(data), "\n"@)
}

/// An event as it stands in the stream.
pub open spec fn event_text(kind: Seq<char>, data: Seq<char>) -> Seq<char> {
    event_block(kind, data) + "\n\n"@
}

/// The newline as a character and as a text.
proof fn lemma_newline()
    ensures
        "\n"@ == seq!['\n'],
        "\n\n"@ == seq!['\n', '\n'],
{
    reveal_strlit("\n");
    reveal_strlit("\n\n");
    assert("\n"@ =~= seq!['\n']);
    assert("\n\n"@ =~= seq!['\n', '\n']);
}

/// A piece holds none of the characters that part the pieces.
proof fn lemma_piece_has_no_separator(s: Seq<char>, c: char)
    ensures
        forall|i: int| 0 <= i < pieces(s, c).len() ==> !(#[trigger] pieces(s, c)[i]).contains(c),
    decreases s.len(),
{
    if s.len() > 0 {
        let t = s.drop_last();
        let p = pieces(t, c);
        lemma_piece_has_no_separator(t, c);
        crate::text::lemma_pieces_some(t, c);
        assert forall|i: int| 0 <= i < pieces(s, c).len() implies !(#[trigger] pieces(
            s,
            c,
        )[i]).contains(c) by {
            if s.last() == c {
                if i < p.len() {
                    assert(pieces(s, c)[i] == p[i]);
                }
            } else if i < p.len() - 1 {
                assert(pieces(s, c)[i] == p[i]);
            } else {
                let q = p[p.len() - 1];
                assert(pieces(s, c)[i] == q.push(s.last()));
                assert(!q.contains(c));
                if q.push(s.last()).contains(c) {
                    let j = choose|j: int| 0 <= j < q.push(s.last()).len() && q.push(s.last())[j] == c;
                    assert(q[j] == c);
                }
            }
        }
    }
}

/// A piece holds no character that the text does not hold.
proof fn lemma_piece_within(s: Seq<char>, c: char, d: char)
    requires
        !s.contains(d),
    ensures
        forall|i: int| 0 <= i < pieces(s, c).len() ==> !(#[trigger] pieces(s, c)[i]).contains(d),
    decreases s.len(),
{
    if s.len() > 0 {
        let t = s.drop_last();
        let p = pieces(t, c);
        assert(!t.contains(d)) by {
            if t.contains(d) {
                let j = choose|j: int| 0 <= j < t.len() && t[j] == d;
                assert(s[j] == d);
            }
        }
        assert(s.last() != d) by {
            if s.last() == d {
                assert(s.contains(d));
            }
        }
        lemma_piece_within(t, c, d);
        crate::text::lemma_pieces_some(t, c);
        assert forall|i: int| 0 <= i < pieces(s, c).len() implies !(#[trigger] pieces(
            s,
            c,
        )[i]).contains(d) by {
            if s.last() == c {
                if i < p.len() {
                    assert(pieces(s, c)[i] == p[i]);
                }
            } else if i < p.len() - 1 {
                assert(pieces(s, c)[i] == p[i]);
            } else {
                let q = p[p.len() - 1];
                assert(pieces(s, c)[i] == q.push(s.last()));
                assert(!q.contains(d));
                if q.push(s.last()).contains(d) {
                    let j = choose|j: int| 0 <= j < q.push(s.last()).len() && q.push(s.last())[j] == d;
                    assert(q[j] == d);
                }
            }
        }
    }
}

/// A kind that a line can carry: not empty, and without white space.
pub open spec fn is_plain_kind(kind: Seq<char>) -> bool {
    kind.len() > 0 && forall|i: int| 0 <= i < kind.len() ==> !is_white(#[trigger] kind[i])
}

/// Data that survives the reader: no carriage return, and no line that begins
/// with a space.
pub open spec fn is_plain_data(data: Seq<char>) -> bool {
    &&& !data.contains('\r')
    &&& forall|i: int|
        0 <= i < pieces(data, '\n').len() && (#[trigger] pieces(data, '\n')[i]).len() > 0
            ==> pieces(data, '\n')[i][0] != ' '
}

proof fn lemma_event_line(f: Fields, kind: Seq<char>)
    requires
        is_plain_kind(kind),
    ensures
        with_line(f, "event: "@ + kind) == (Fields { kind: Some(kind), ..f }),
        !("event: "@ + kind).contains('\n'),
        ("event: "@ + kind).last() != '\n',
{
    reveal_strlit("event: ");
    reveal_strlit("event:");
    let line = "event: "@ + kind;
    let n = line.len() as int;
    assert(line.last() == kind[kind.len() - 1]);
    assert(!is_white(kind[kind.len() - 1]));
    crate::text::lemma_drop_trailing(line, |c: char| c == '\r', n);
    assert(line.subrange(0, n) =~= line);
    assert(line.subrange(0, 6) =~= "event:"@);
    let rest = line.subrange(6, n);
    assert(rest =~= seq![' '] + kind);
    let p = |c: char| is_white(c);
    assert(!is_white(kind[0]));
    assert(rest[1] == kind[0]);
    crate::text::lemma_drop_leading(rest, p, 1);
    assert(rest.subrange(1, rest.len() as int) =~= kind);
    crate::text::lemma_drop_trailing(kind, p, kind.len() as int);
    assert(kind.subrange(0, kind.len() as int) =~= kind);
    if line.contains('\n') {
        let j = choose|j: int| 0 <= j < line.len() && line[j] == '\n';
        if j >= 7 {
            assert(line[j] == kind[j - 7]);
            assert(!is_white(kind[j - 7]));
        }
    }
}

proof fn lemma_data_line(f: Fields, l: Seq<char>)
    requires
        !l.contains('\r'),
        !l.contains('\n'),
        l.len() > 0 ==> l[0] != ' ',
    ensures
        with_line(f, "data: "@ + l) == (Fields { data: f.data.push(l), ..f }),
        !("data: "@ + l).contains('\n'),
{
    reveal_strlit("data: ");
    reveal_strlit("data:");
    reveal_strlit("event:");
    let line = "data: "@ + l;
    let n = line.len() as int;
    assert(line.last() != '\r') by {
        if l.len() > 0 {
            assert(line.last() == l.last());
            if l.last() == '\r' {
                assert(l.contains('\r'));
            }
        }
    }
    crate::text::lemma_drop_trailing(line, |c: char| c == '\r', n);
    assert(line.subrange(0, n) =~= line);
    assert(line[0] == 'd');
    assert(!begins_with(line, "event:"@)) by {
        if begins_with(line, "event:"@) {
            assert(line.subrange(0, 6)[0] == 'e');
        }
    }
    assert(line.subrange(0, 5) =~= "data:"@);
    let rest = line.subrange(5, n);
    assert(rest =~= seq![' '] + l);
    if l.len() > 0 {
        assert(rest[1] == l[0]);
    }
    crate::text::lemma_drop_leading(rest, |c: char| c == ' ', 1);
    assert(rest.subrange(1, rest.len() as int) =~= l);
    if line.contains('\n') {
        let j = choose|j: int| 0 <= j < line.len() && line[j] == '\n';
        if j >= 6 {
            assert(line[j] == l[j - 6]);
            assert(l.contains('\n'));
        }
    }
}

/// The fields of the data lines that follow the first line.
proof fn lemma_fields_of_data(kind: Seq<char>, v: Seq<Seq<char>>)
    requires
        is_plain_kind(kind),
        forall|i: int|
            0 <= i < v.len() ==> !(#[trigger] v[i]).contains('\r') && !v[i].contains('\n') && (
            v[i].len() > 0 ==> v[i][0] != ' '),
    ensures
        fields_of(seq!["event: "@ + kind] + v.map_values(|l: Seq<char>| "data: "@ + l)) == (Fields {
            kind: Some(kind),
            data: v,
        }),
    decreases v.len(),
{
    let g = |l: Seq<char>| "data: "@ + l;
    let first = "event: "@ + kind;
    let lines = seq![first] + v.map_values(g);
    let empty = Fields { kind: None, data: Seq::empty() };
    if v.len() == 0 {
        lemma_event_line(empty, kind);
        assert(lines =~= seq![first]);
        assert(lines.drop_last() =~= Seq::<Seq<char>>::empty());
        assert(fields_of(lines.drop_last()) == empty);
        assert(v =~= Seq::empty());
    } else {
        let w = v.drop_last();
        assert forall|i: int| 0 <= i < w.len() implies !(#[trigger] w[i]).contains('\r')
            && !w[i].contains('\n') && (w[i].len() > 0 ==> w[i][0] != ' ') by {
            assert(w[i] == v[i]);
        }
        lemma_fields_of_data(kind, w);
        assert(lines.drop_last() =~= seq![first] + w.map_values(g));
        assert(lines.last() == "data: "@ + v[v.len() - 1]);
        lemma_data_line(fields_of(lines.drop_last()), v[v.len() - 1]);
        assert(w.push(v.last()) =~= v);
    }
}

/// Reading the block of an event gives the event's kind and data back.
pub proof fn block_reads_back(kind: Seq<char>, data: Seq<char>)
    requires
        is_plain_kind(kind),
        is_plain_data(data),
    ensures
        block_kind(event_block(kind, data)) == kind,
        block_data(event_block(kind, data)) == data,
{
    lemma_newline();
    let first = "event: "@ + kind;
    let lines = seq![first] + data_lines(data);
    let g = |l: Seq<char>| "data: "@ + l;
    let v = if data.len() == 0 {
        Seq::<Seq<char>>::empty()
    } else {
        pieces(data, '\n')
    };
    lemma_piece_has_no_separator(data, '\n');
    lemma_piece_within(data, '\n', '\r');
    assert(data_lines(data) =~= v.map_values(g));
    lemma_fields_of_data(kind, v);
    assert forall|i: int| 0 <= i < lines.len() implies !(#[trigger] lines[i]).contains('\n') by {
        let empty = Fields { kind: None, data: Seq::empty() };
        if i == 0 {
            lemma_event_line(empty, kind);
        } else {
            assert(lines[i] == "data: "@ + v[i - 1]);
            lemma_data_line(empty, v[i - 1]);
        }
    }
    crate::text::lemma_pieces_of_joined(lines, '\n');
    assert(fields_of(pieces(event_block(kind, data), '\n')) == (Fields { kind: Some(kind), data: v }));
    if data.len() == 0 {
        assert(joined(v, "\n"@) =~= data);
    } else {
        crate::text::lemma_join_pieces(data, '\n');
    }
}

/// Joined lines that are not empty hold no blank line and do not end in a
/// newline.
proof fn lemma_joined_has_no_blank_line(v: Seq<Seq<char>>)
    requires
        v.len() > 0,
        forall|i: int| 0 <= i < v.len() ==> (#[trigger] v[i]).len() > 0 && !v[i].contains('\n'),
    ensures
        joined(v, seq!['\n']).len() > 0,
        joined(v, seq!['\n']).last() != '\n',
        forall|i: int|
            0 <= i < joined(v, seq!['\n']).len() - 1 ==> !(joined(v, seq!['\n'])[i] == '\n'
                && #[trigger] joined(v, seq!['\n'])[i + 1] == '\n'),
    decreases v.len(),
{
    let j = joined(v, seq!['\n']);
    let e = v[v.len() - 1];
    assert forall|k: int| 0 <= k < e.len() implies #[trigger] e[k] != '\n' by {
        if e[k] == '\n' {
            assert(e.contains('\n'));
        }
    }
    if v.len() == 1 {
        assert(j == e);
    } else {
        let w = v.drop_last();
        assert forall|i: int| 0 <= i < w.len() implies (#[trigger] w[i]).len() > 0
            && !w[i].contains('\n') by {
            assert(w[i] == v[i]);
        }
        lemma_joined_has_no_blank_line(w);
        let a = joined(w, seq!['\n']);
        assert(j == a + seq!['\n'] + e);
        assert forall|i: int| 0 <= i < j.len() - 1 implies !(j[i] == '\n' && #[trigger] j[i + 1]
            == '\n') by {
            if i + 1 < a.len() {
                assert(j[i] == a[i] && j[i + 1] == a[i + 1]);
            } else if i + 1 == a.len() {
                assert(j[i] == a.last());
            } else {
                assert(j[i + 1] == e[i + 1 - a.len() - 1]);
            }
        }
    }
}

/// In a stream that begins with an event, the event's block is the first one,
/// and what follows the event is what remains.
pub proof fn event_comes_off_whole(kind: Seq<char>, data: Seq<char>, rest: Seq<char>)
    requires
        is_plain_kind(kind),
        is_plain_data(data),
    ensures
        blank_line(event_text(kind, data) + rest) == Some(event_block(kind, data).len() as int),
        (event_text(kind, data) + rest).subrange(0, event_block(kind, data).len() as int)
            == event_block(kind, data),
        (event_text(kind, data) + rest).subrange(
            event_block(kind, data).len() as int + 2,
            (event_text(kind, data) + rest).len() as int,
        ) == rest,
{
    lemma_newline();
    let first = "event: "@ + kind;
    let lines = seq![first] + data_lines(data);
    lemma_piece_has_no_separator(data, '\n');
    lemma_piece_within(data, '\n', '\r');
    reveal_strlit("event: ");
    reveal_strlit("data: ");
    assert forall|i: int| 0 <= i < lines.len() implies (#[trigger] lines[i]).len() > 0
        && !lines[i].contains('\n') by {
        let empty = Fields { kind: None, data: Seq::empty() };
        if i == 0 {
            lemma_event_line(empty, kind);
        } else {
            assert(lines[i] == "data: "@ + pieces(data, '\n')[i - 1]);
            lemma_data_line(empty, pieces(data, '\n')[i - 1]);
        }
    }
    lemma_joined_has_no_blank_line(lines);
    let b = event_block(kind, data);
    let s = event_text(kind, data) + rest;
    assert(s =~= b + seq!['\n', '\n'] + rest);
    assert forall|i: int| 0 <= i < b.len() implies !(s[i] == '\n' && #[trigger] s[i + 1]
        == '\n') by {
        if i < b.len() - 1 {
            assert(s[i] == b[i] && s[i + 1] == b[i + 1]);
        } else {
            assert(s[i] == b.last());
        }
    }
    lemma_blank_line_at(s, b.len() as int);
    assert(s.subrange(0, b.len() as int) =~= b);
    assert(s.subrange(b.len() as int + 2, s.len() as int) =~= rest);
}

/// A keep-alive comment carries no kind and no data.
pub proof fn comment_is_silent(line: Seq<char>)
    requires
        line.len() > 0,
        line[0] == ':',
        !line.contains('\n'),
    ensures
        block_kind(line) == Seq::<char>::empty(),
        block_data(line) == Seq::<char>::empty(),
{
    reveal_strlit("event:");
    reveal_strlit("data:");
    crate::text::lemma_pieces_single(line, '\n');
    let p = |c: char| c == '\r';
    let l = drop_trailing(line, p);
    lemma_drop_trailing_keeps_first(line, p);
    assert(!begins_with(l, "event:"@)) by {
        if begins_with(l, "event:"@) {
            assert(l.subrange(0, 6)[0] == 'e');
        }
    }
    assert(!begins_with(l, "data:"@)) by {
        if begins_with(l, "data:"@) {
            assert(l.subrange(0, 5)[0] == 'd');
        }
    }
    assert(seq![line].drop_last() =~= Seq::<Seq<char>>::empty());
    assert(fields_of(seq![line]) == fields_of(Seq::<Seq<char>>::empty()));
}

proof fn lemma_drop_trailing_keeps_first(s: Seq<char>, p: spec_fn(char) -> bool)
    requires
        s.len() > 0,
        !p(s[0]),
    ensures
        drop_trailing(s, p).len() > 0,
        drop_trailing(s, p)[0] == s[0],
    decreases s.len(),
{
    if p(s.last()) {
        lemma_drop_trailing_keeps_first(s.drop_last(), p);
    }
}

// ---------------------------------------------------------------------------
// Chunks
// ---------------------------------------------------------------------------
/// The blocks that come off a buffer, and what stays in it.
pub struct Drained {
    pub blocks: Seq<Seq<char>>,
    pub rest: Seq<char>,
}

/// Takes blocks off `s` as long as there is a blank line.
pub open spec fn drained(s: Seq<char>) -> Drained
    decreases s.len(),
{
    match blank_line(s) {
        Some(k) => if 0 <= k < s.len() - 1 {
            let d = drained(s.subrange(k + 2, s.len() as int));
            Drained { blocks: seq![s.subrange(0, k)] + d.blocks, rest: d.rest }
        } else {
            Drained { blocks: Seq::empty(), rest: s }
        },
        None => Drained { blocks: Seq::empty(), rest: s },
    }
}

/// However the stream is cut into chunks, the same blocks come off: draining
/// after the first chunk and again after the second gives what draining both
/// at once gives, and the same text is left waiting.
pub proof fn chunks_do_not_matter(a: Seq<char>, b: Seq<char>)
    ensures
        drained(a + b).blocks == drained(a).blocks + drained(drained(a).rest + b).blocks,
        drained(a + b).rest == drained(drained(a).rest + b).rest,
    decreases a.len(),
{
    let s = a + b;
    lemma_blank_line_found(a);
    match blank_line(a) {
        Some(k) => {
            assert forall|i: int| 0 <= i < k implies !(s[i] == '\n' && #[trigger] s[i + 1]
                == '\n') by {
                assert(s[i] == a[i] && s[i + 1] == a[i + 1]);
            }
            assert(s[k] == a[k] && s[k + 1] == a[k + 1]);
            lemma_blank_line_at(s, k);
            let a2 = a.subrange(k + 2, a.len() as int);
            chunks_do_not_matter(a2, b);
            assert(s.subrange(k + 2, s.len() as int) =~= a2 + b);
            assert(s.subrange(0, k) =~= a.subrange(0, k));
            assert(drained(s).blocks =~= seq![a.subrange(0, k)] + drained(a2).blocks + drained(
                drained(a2).rest + b,
            ).blocks);
        },
        None => {
            assert(drained(a).rest == a);
            assert(drained(a).blocks + drained(s).blocks =~= drained(s).blocks);
        },
    }
}

/// The kind is what an `event:` line holds besides the white space around it,
/// the carriage returns at its end among it.
pub proof fn kinds_are_read_without_white_space(
    f: Fields,
    before: Seq<char>,
    kind: Seq<char>,
    after: Seq<char>,
)
    requires
        forall|i: int| 0 <= i < before.len() ==> is_white(#[trigger] before[i]),
        forall|i: int| 0 <= i < after.len() ==> is_white(#[trigger] after[i]),
        kind.len() > 0,
        !is_white(kind[0]),
        !is_white(kind.last()),
    ensures
        with_line(f, "event:"@ + before + kind + after) == (Fields {
            kind: Some(kind),
            data: f.data,
        }),
{
    reveal_strlit("event:");
    let p = |c: char| c == '\r';
    let line = "event:"@ + before + kind + after;
    let n = 6 + before.len() + kind.len();
    let k = crate::text::lemma_drop_trailing_cut(line, p);
    assert(line[n - 1] == kind[kind.len() - 1]);
    assert(k >= n) by {
        if k < n {
            assert(p(line[n - 1]));
        }
    }
    let l = line.subrange(0, k);
    let rest = after.subrange(0, k - n);
    assert(l.subrange(0, 6) =~= "event:"@);
    assert(l.subrange(6, k) =~= before + kind + rest);
    assert forall|i: int| 0 <= i < rest.len() implies is_white(#[trigger] rest[i]) by {
        assert(rest[i] == after[i]);
    }
    crate::text::padding_does_not_count(before, kind, rest);
    crate::text::lemma_trimmed_identity(kind);
}

/// A `data:` line adds what it holds behind its spaces and before the carriage
/// returns at its end, and nothing less: other white space counts.
pub proof fn data_is_read_behind_the_spaces(
    f: Fields,
    spaces: Seq<char>,
    data: Seq<char>,
    crs: Seq<char>,
)
    requires
        forall|i: int| 0 <= i < spaces.len() ==> #[trigger] spaces[i] == ' ',
        forall|i: int| 0 <= i < crs.len() ==> #[trigger] crs[i] == '\r',
        data.len() > 0 ==> data[0] != ' ' && data.last() != '\r',
    ensures
        with_line(f, "data:"@ + spaces + data + crs) == (Fields {
            kind: f.kind,
            data: f.data.push(data),
        }),
{
    reveal_strlit("event:");
    reveal_strlit("data:");
    let p = |c: char| c == '\r';
    let carried = "data:"@ + spaces + data;
    let line = carried + crs;
    assert(line =~= "data:"@ + spaces + data + crs);
    let m = carried.len() as int;
    assert(!p(line[m - 1])) by {
        if data.len() > 0 {
            assert(line[m - 1] == data[data.len() - 1]);
        } else if spaces.len() > 0 {
            assert(line[m - 1] == spaces[spaces.len() - 1]);
        }
    }
    assert forall|i: int| m <= i < line.len() implies p(line[i]) by {
        assert(line[i] == crs[i - m]);
    }
    crate::text::lemma_drop_trailing(line, p, m);
    assert(line.subrange(0, m) =~= carried);
    assert(!begins_with(carried, "event:"@)) by {
        if begins_with(carried, "event:"@) {
            assert(carried.subrange(0, 6)[0] == 'e');
        }
    }
    assert(carried.subrange(0, 5) =~= "data:"@);
    let rest = carried.subrange(5, m);
    assert(rest =~= spaces + data);
    let q = |c: char| c == ' ';
    let b = spaces.len() as int;
    assert forall|i: int| 0 <= i < b implies q(rest[i]) by {
        assert(rest[i] == spaces[i]);
    }
    if data.len() > 0 {
        assert(rest[b] == data[0]);
    }
    crate::text::lemma_drop_leading(rest, q, b);
    assert(rest.subrange(b, rest.len() as int) =~= data);
}

/// A line that begins like neither an `event:` nor a `data:` line changes
/// nothing.
pub proof fn other_lines_change_nothing(f: Fields, line: Seq<char>)
    requires
        line.len() > 0 ==> line[0] != 'e' && line[0] != 'd',
    ensures
        with_line(f, line) == f,
{
    reveal_strlit("event:");
    reveal_strlit("data:");
    let p = |c: char| c == '\r';
    let l = drop_trailing(line, p);
    let k = crate::text::lemma_drop_trailing_cut(line, p);
    assert("event:"@[0] == 'e' && "data:"@[0] == 'd');
    if begins_with(l, "event:"@) {
        assert(l.subrange(0, 6)[0] == l[0]);
        assert(l[0] == line[0]);
    }
    if begins_with(l, "data:"@) {
        assert(l.subrange(0, 5)[0] == l[0]);
        assert(l[0] == line[0]);
    }
}

/// Lines are read in order: their data adds up, and the last kind that is named
/// prevails.
pub proof fn lines_are_read_in_order(a: Seq<Seq<char>>, b: Seq<Seq<char>>)
    ensures
        fields_of(a + b).data == fields_of(a).data + fields_of(b).data,
        fields_of(b).kind matches Some(k) ==> fields_of(a + b).kind == Some(k),
        fields_of(b).kind is None ==> fields_of(a + b).kind == fields_of(a).kind,
    decreases b.len(),
{
    if b.len() == 0 {
        assert(a + b =~= a);
        assert(fields_of(a).data + fields_of(b).data =~= fields_of(a).data);
    } else {
        let c = b.drop_last();
        lines_are_read_in_order(a, c);
        assert((a + b).drop_last() =~= a + c);
        assert((a + b).last() == b.last());
        assert(fields_of(a + b).data =~= fields_of(a).data + fields_of(b).data);
    }
}

/// A block without a kind has an empty one, and a block without data has none;
/// the data lines of a block stand one below the other.
pub proof fn blocks_say_what_their_lines_say(block: Seq<char>)
    ensures
        ({
            let f = fields_of(pieces(block, '\n'));
            &&& f.kind is None ==> block_kind(block).len() == 0
            &&& f.kind matches Some(k) ==> block_kind(block) == k
            &&& f.data.len() == 0 ==> block_data(block).len() == 0
            &&& f.data.len() == 1 ==> block_data(block) == f.data[0]
            &&& f.data.len() == 2 ==> block_data(block) == f.data[0] + seq!['\n'] + f.data[1]
        }),
{
    lemma_newline();
    let d = fields_of(pieces(block, '\n')).data;
    if d.len() == 1 {
        assert(d =~= seq![d[0]]);
    } else if d.len() == 2 {
        crate::text::joining_adds_separators(seq![d[0]], seq![d[1]], "\n"@);
        crate::text::joining_adds_separators(Seq::empty(), seq![d[1]], "\n"@);
        assert(seq![d[0]] + seq![d[1]] =~= d);
    }
}

/// An event whose data is one line is written as two lines and a blank one, and
/// one without data as its first line alone. Any line that does not begin with a
/// space and holds no carriage return can be written so.
pub proof fn an_event_is_written_in_lines(kind: Seq<char>, data: Seq<char>)
    requires
        !data.contains('\n'),
        !data.contains('\r'),
        data.len() > 0 ==> data[0] != ' ',
    ensures
        is_plain_data(data),
        data.len() > 0 ==> event_text(kind, data) == "event: "@ + kind + "\ndata: "@ + data
            + "\n\n"@,
        data.len() == 0 ==> event_text(kind, data) == "event: "@ + kind + "\n\n"@,
{
    lemma_newline();
    crate::text::lemma_pieces_single(data, '\n');
    let first = "event: "@ + kind;
    if data.len() == 0 {
        assert(seq![first] + data_lines(data) =~= seq![first]);
    } else {
        reveal_strlit("data: ");
        reveal_strlit("\ndata: ");
        let lines = seq![first] + data_lines(data);
        assert(lines =~= seq![first, "data: "@ + data]);
        assert(lines.drop_last() =~= seq![first]);
        assert(joined(seq![first], "\n"@) == first);
        assert("\n"@ + "data: "@ =~= "\ndata: "@);
        assert(event_text(kind, data) =~= "event: "@ + kind + "\ndata: "@ + data + "\n\n"@);
    }
}

} // verus!
