//! JSON strings, as the answer stream carries its text.
use crate::ident::hex_digit;
use crate::text::optional_text;
use vstd::prelude::*;

verus! {

/// How one character stands inside a JSON string.
pub open spec fn escape(c: char) -> Seq<char> {
    if c == '"' {
        seq!['\\', '"']
    } else if c == '\\' {
        seq!['\\', '\\']
    } else if c as u32 == 8 {
        seq!['\\', 'b']
    } else if c as u32 == 9 {
        seq!['\\', 't']
    } else if c as u32 == 10 {
        seq!['\\', 'n']
    } else if c as u32 == 12 {
        seq!['\\', 'f']
    } else if c as u32 == 13 {
        seq!['\\', 'r']
    } else if (c as u32) < 32 {
        seq!['\\', 'u', '0', '0', hex_digit((c as nat) / 16), hex_digit((c as nat) % 16)]
    } else {
        seq![c]
    }
}

/// The characters of `s`, each as it stands inside a JSON string.
pub open spec fn escaped(s: Seq<char>) -> Seq<char>
    decreases s.len(),
{
    if s.len() == 0 {
        Seq::empty()
    } else {
        escaped(s.drop_last()) + escape(s.last())
    }
}

/// `s` as a JSON string.
pub open spec fn json_string(s: Seq<char>) -> Seq<char> {
    seq!['"'] + escaped(s) + seq!['"']
}

/// What `serde_json::from_str` reads as a string.
pub uninterp spec fn json_text(s: Seq<char>) -> Option<Seq<char>>;

/// `serde_json::to_string` of a string: the text in double quotes, with the
/// quote, the backslash and the control characters below space escaped. It
/// has no way to fail.
#[verifier::external_body]
fn to_json(s: &str) -> (r: Option<String>)
    ensures
        optional_text(r) == Some(json_string(s@)),
{
    serde_json::to_string(s).ok()
}

/// `serde_json::from_str` into a `String`: what it reads is a function of the
/// text, and a text that `serde_json::to_string` writes is read back.
#[verifier::external_body]
fn from_json(s: &str) -> (r: Option<String>)
    ensures
        optional_text(r) == json_text(s@),
        forall|t: Seq<char>| s@ == #[trigger] json_string(t) ==> optional_text(r) == Some(t),
{
    serde_json::from_str::<String>(s).ok()
}

/// `s` as a JSON string.
pub fn encode(s: &str) -> (r: String)
    ensures
        r@ == json_string(s@),
{
    match to_json(s) {
        Some(t) => t,
        None => "\"\"".to_string(),
    }
}

/// The text that a JSON string holds, or the text itself if it is none.
pub fn decode_or_raw(s: &str) -> (r: String)
    ensures
        r@ == text_or_raw(s@),
        forall|t: Seq<char>| s@ == #[trigger] json_string(t) ==> r@ == t,
{
    match from_json(s) {
        Some(t) => t,
        None => s.to_string(),
    }
}

/// The text that a JSON string holds, or the text itself if it is none.
pub open spec fn text_or_raw(s: Seq<char>) -> Seq<char> {
    match json_text(s) {
        Some(t) => t,
        None => s,
    }
}

// ---------------------------------------------------------------------------
// Laws
// ---------------------------------------------------------------------------
proof fn lemma_escape_is_printable(c: char)
    ensures
        forall|i: int| 0 <= i < escape(c).len() ==> (#[trigger] escape(c)[i]) as u32 >= 32,
{
}

proof fn lemma_escaped_is_printable(s: Seq<char>)
    ensures
        forall|i: int| 0 <= i < escaped(s).len() ==> (#[trigger] escaped(s)[i]) as u32 >= 32,
    decreases s.len(),
{
    if s.len() > 0 {
        let a = escaped(s.drop_last());
        let b = escape(s.last());
        lemma_escaped_is_printable(s.drop_last());
        lemma_escape_is_printable(s.last());
        assert forall|i: int| 0 <= i < escaped(s).len() implies (#[trigger] escaped(s)[i]) as u32
            >= 32 by {
            if i < a.len() {
                assert(escaped(s)[i] == a[i]);
            } else {
                assert(escaped(s)[i] == b[i - a.len()]);
            }
        }
    }
}

/// A JSON string stays on one line: it holds no control character, begins
/// with a quote and ends with one.
pub proof fn json_string_is_one_line(s: Seq<char>)
    ensures
        forall|i: int| 0 <= i < json_string(s).len() ==> (#[trigger] json_string(s)[i]) as u32 >= 32,
        json_string(s).len() >= 2,
        json_string(s)[0] == '"',
        json_string(s).last() == '"',
{
    lemma_escaped_is_printable(s);
    let j = json_string(s);
    assert forall|i: int| 0 <= i < j.len() implies (#[trigger] j[i]) as u32 >= 32 by {
        if 0 < i < j.len() - 1 {
            assert(j[i] == escaped(s)[i - 1]);
        }
    }
}

/// What cannot be read as a JSON string is taken as it stands, and what can is
/// taken as it was read.
pub proof fn unreadable_text_stays(s: Seq<char>)
    ensures
        json_text(s) is None ==> text_or_raw(s) == s,
        json_text(s) matches Some(t) ==> text_or_raw(s) == t,
{
}

/// A JSON string is made character by character: of two texts one behind the
/// other, the characters of the first and behind them those of the second. A
/// character that is printable, no quote and no backslash stands for itself.
pub proof fn strings_are_escaped_by_character(a: Seq<char>, b: Seq<char>)
    ensures
        escaped(a + b) == escaped(a) + escaped(b),
        b.len() == 1 && b[0] as u32 >= 32 && b[0] != '"' && b[0] != '\\' ==> escaped(b) == b,
    decreases b.len(),
{
    if b.len() == 0 {
        assert(a + b =~= a);
        assert(escaped(a) + escaped(b) =~= escaped(a));
    } else {
        strings_are_escaped_by_character(a, b.drop_last());
        assert((a + b).drop_last() =~= a + b.drop_last());
        assert((a + b).last() == b.last());
        assert(escaped(a + b) =~= escaped(a) + escaped(b));
        if b.len() == 1 {
            assert(b.drop_last() =~= Seq::empty());
            assert(escaped(Seq::empty()) == Seq::<char>::empty());
            assert(Seq::<char>::empty() + escape(b[0]) =~= escape(b[0]));
            assert(b =~= seq![b[0]]);
        }
    }
}

} // verus!
