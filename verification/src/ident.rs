//! Identifiers: 128-bit UUIDs and their two text forms.
use vstd::prelude::*;

verus! {

/// A UUID, held as the number that its sixteen bytes spell in big-endian
/// order.
#[derive(Clone, Copy, Debug, PartialEq, Eq, Structural, Hash)]
pub struct Uuid {
    pub value: u128,
}

// ---------------------------------------------------------------------------
// Text forms
// ---------------------------------------------------------------------------
/// The lower-case hexadecimal digit `n`.
pub open spec fn hex_digit(n: nat) -> char {
    if n < 10 {
        (48 + n) as char
    } else {
        (87 + n) as char
    }
}

/// The last `n` hexadecimal digits of `v`, the most significant first.
pub open spec fn hex_digits(v: nat, n: nat) -> Seq<char>
    decreases n,
{
    if n == 0 {
        Seq::empty()
    } else {
        hex_digits(v / 16, (n - 1) as nat).push(hex_digit(v % 16))
    }
}

/// 32 hexadecimal digits.
pub open spec fn simple_form(v: u128) -> Seq<char> {
    hex_digits(v as nat, 32)
}

/// `s`, 32 digits long, cut into groups of 8, 4, 4, 4 and 12 by hyphens.
pub open spec fn with_hyphens(s: Seq<char>) -> Seq<char> {
    s.subrange(0, 8) + seq!['-'] + s.subrange(8, 12) + seq!['-'] + s.subrange(12, 16) + seq!['-']
        + s.subrange(16, 20) + seq!['-'] + s.subrange(20, 32)
}

/// The 32 digits in groups of 8, 4, 4, 4 and 12.
pub open spec fn hyphenated_form(v: u128) -> Seq<char> {
    with_hyphens(simple_form(v))
}

// ---------------------------------------------------------------------------
// Reading
// ---------------------------------------------------------------------------
/// What a hexadecimal digit of either case stands for.
pub open spec fn hex_value(c: char) -> Option<nat> {
    if '0' <= c <= '9' {
        Some((c as u32 - 48) as nat)
    } else if 'a' <= c <= 'f' {
        Some((c as u32 - 87) as nat)
    } else if 'A' <= c <= 'F' {
        Some((c as u32 - 55) as nat)
    } else {
        None
    }
}

/// The number that hexadecimal digits spell.
pub open spec fn hex_number(s: Seq<char>) -> Option<nat>
    decreases s.len(),
{
    if s.len() == 0 {
        Some(0)
    } else {
        match (hex_number(s.drop_last()), hex_value(s.last())) {
            (Some(n), Some(d)) => Some(16 * n + d),
            _ => None,
        }
    }
}

/// The digits of a hyphenated text, if its hyphens stand where they should.
pub open spec fn without_hyphens(s: Seq<char>) -> Option<Seq<char>> {
    if s.len() == 36 && s[8] == '-' && s[13] == '-' && s[18] == '-' && s[23] == '-' {
        Some(
            s.subrange(0, 8) + s.subrange(9, 13) + s.subrange(14, 18) + s.subrange(19, 23)
                + s.subrange(24, 36),
        )
    } else {
        None
    }
}

/// The digits of a text in one of the accepted forms: 32 digits, hyphenated,
/// hyphenated in braces, or hyphenated behind `urn:uuid:` in any case.
pub open spec fn digits_of(s: Seq<char>) -> Option<Seq<char>> {
    if s.len() == 32 {
        Some(s)
    } else if s.len() == 36 {
        without_hyphens(s)
    } else if s.len() == 38 && s[0] == '{' && s[37] == '}' {
        without_hyphens(s.subrange(1, 37))
    } else if s.len() == 45 && crate::text::lowered(s.subrange(0, 9)) == seq![
        'u',
        'r',
        'n',
        ':',
        'u',
        'u',
        'i',
        'd',
        ':',
    ] {
        without_hyphens(s.subrange(9, 45))
    } else {
        None
    }
}

/// The UUID that a text spells.
pub open spec fn parsed(s: Seq<char>) -> Option<u128> {
    match digits_of(s) {
        Some(d) => match hex_number(d) {
            Some(n) => Some(n as u128),
            None => None,
        },
        None => None,
    }
}

// ---------------------------------------------------------------------------
// The uuid crate
// ---------------------------------------------------------------------------
/// `uuid::Uuid::as_simple`, displayed: the 32 lower-case hexadecimal digits of
/// the value, the most significant first.
#[verifier::external_body]
fn simple_text(v: u128) -> (r: String)
    ensures
        r@ == simple_form(v),
{
    uuid::Uuid::from_u128(v).as_simple().to_string()
}

/// `uuid::Uuid` displayed: the same digits in groups of 8, 4, 4, 4 and 12 with
/// a hyphen between each two.
#[verifier::external_body]
fn hyphenated_text(v: u128) -> (r: String)
    ensures
        r@ == hyphenated_form(v),
{
    uuid::Uuid::from_u128(v).to_string()
}

/// `uuid::Uuid::parse_str`: accepts the simple, hyphenated, braced and URN
/// forms with digits of either case, and nothing else.
#[verifier::external_body]
fn parse_text(s: &str) -> (r: Option<u128>)
    ensures
        r == parsed(s@),
{
    uuid::Uuid::parse_str(s).ok().map(|u| u.as_u128())
}

/// `uuid::Uuid::new_v4`: a random value whose version digit is 4 and whose two
/// variant bits are 1 and 0. Which value it is rests on chance.
#[verifier::external_body]
fn random_value() -> (r: u128)
    ensures
        is_version_4(r),
{
    uuid::Uuid::new_v4().as_u128()
}

/// Version digit 4 and variant bits 10.
pub open spec fn is_version_4(v: u128) -> bool {
    &&& (v as nat / 0x1000_0000_0000_0000_0000) % 16 == 4
    &&& (v as nat / 0x4000_0000_0000_0000) % 4 == 2
}

impl Uuid {
    /// The 32-digit form.
    pub fn simple(self) -> (r: String)
        ensures
            r@ == simple_form(self.value),
    {
        simple_text(self.value)
    }

    /// The hyphenated form.
    pub fn hyphenated(self) -> (r: String)
        ensures
            r@ == hyphenated_form(self.value),
    {
        hyphenated_text(self.value)
    }

    /// The identifier that `s` spells, if it spells one.
    pub fn parse_str(s: &str) -> (r: Option<Uuid>)
        ensures
            parsed(s@) matches Some(v) ==> r == Some(Uuid { value: v }),
            parsed(s@) is None ==> r is None,
    {
        match parse_text(s) {
            Some(value) => Some(Uuid { value }),
            None => None,
        }
    }

    /// A fresh random identifier.
    pub fn new_v4() -> (r: Uuid)
        ensures
            is_version_4(r.value),
    {
        Uuid { value: random_value() }
    }
}

// ---------------------------------------------------------------------------
// Laws
// ---------------------------------------------------------------------------
/// Sixteen to the `n`.
spec fn pow16(n: nat) -> nat
    decreases n,
{
    if n == 0 {
        1
    } else {
        16 * pow16((n - 1) as nat)
    }
}

proof fn lemma_digits_len(v: nat, n: nat)
    ensures
        hex_digits(v, n).len() == n,
    decreases n,
{
    if n > 0 {
        lemma_digits_len(v / 16, (n - 1) as nat);
    }
}

proof fn lemma_digit_value(n: nat)
    requires
        n < 16,
    ensures
        hex_value(hex_digit(n)) == Some(n),
{
}

/// The digits of a number spell the number.
proof fn lemma_digits_number(v: nat, n: nat)
    requires
        v < pow16(n),
    ensures
        hex_number(hex_digits(v, n)) == Some(v),
    decreases n,
{
    if n > 0 {
        let m = (n - 1) as nat;
        assert(v / 16 < pow16(m));
        lemma_digits_number(v / 16, m);
        lemma_digit_value(v % 16);
        assert(hex_digits(v, n).drop_last() =~= hex_digits(v / 16, m));
        assert(16 * (v / 16) + v % 16 == v);
    }
}

proof fn lemma_simple_number(v: u128)
    ensures
        hex_number(simple_form(v)) == Some(v as nat),
        simple_form(v).len() == 32,
{
    reveal_with_fuel(pow16, 33);
    lemma_digits_number(v as nat, 32);
    lemma_digits_len(v as nat, 32);
}

/// Reading either text form of an identifier gives the identifier back.
pub proof fn text_forms_read_back(v: u128)
    ensures
        parsed(simple_form(v)) == Some(v),
        parsed(hyphenated_form(v)) == Some(v),
{
    lemma_simple_number(v);
    let s = simple_form(v);
    let h = with_hyphens(s);
    assert(h.len() == 36);
    assert(h.subrange(0, 8) + h.subrange(9, 13) + h.subrange(14, 18) + h.subrange(19, 23)
        + h.subrange(24, 36) =~= s);
}

/// Different identifiers have different text forms.
pub proof fn text_forms_tell_identifiers_apart(a: u128, b: u128)
    requires
        a != b,
    ensures
        simple_form(a) != simple_form(b),
        hyphenated_form(a) != hyphenated_form(b),
{
    text_forms_read_back(a);
    text_forms_read_back(b);
}

/// A lower-case hexadecimal digit.
pub open spec fn is_lower_hex(c: char) -> bool {
    '0' <= c <= '9' || 'a' <= c <= 'f'
}

proof fn lemma_digits_are_hex(v: nat, n: nat)
    ensures
        forall|i: int| 0 <= i < n ==> is_lower_hex(#[trigger] hex_digits(v, n)[i]),
    decreases n,
{
    if n > 0 {
        lemma_digits_are_hex(v / 16, (n - 1) as nat);
        lemma_digits_len(v / 16, (n - 1) as nat);
        assert forall|i: int| 0 <= i < n implies is_lower_hex(#[trigger] hex_digits(v, n)[i]) by {
            if i < n - 1 {
                assert(hex_digits(v, n)[i] == hex_digits(v / 16, (n - 1) as nat)[i]);
            } else {
                assert(hex_digits(v, n)[i] == hex_digit(v % 16));
            }
        }
    }
}

/// The simple form is 32 lower-case hexadecimal digits and no hyphen.
pub proof fn simple_form_is_hex(v: u128)
    ensures
        simple_form(v).len() == 32,
        forall|i: int| 0 <= i < 32 ==> is_lower_hex(#[trigger] simple_form(v)[i]),
{
    lemma_digits_len(v as nat, 32);
    lemma_digits_are_hex(v as nat, 32);
}

/// The hyphenated form is 36 characters, each a digit or a hyphen.
pub proof fn hyphenated_form_is_hex_and_hyphens(v: u128)
    ensures
        hyphenated_form(v).len() == 36,
        forall|i: int|
            0 <= i < 36 ==> is_lower_hex(#[trigger] hyphenated_form(v)[i])
                || hyphenated_form(v)[i] == '-',
{
    simple_form_is_hex(v);
    let s = simple_form(v);
    let h = hyphenated_form(v);
    assert forall|i: int| 0 <= i < 36 implies is_lower_hex(#[trigger] h[i]) || h[i] == '-' by {
        if i < 8 {
            assert(h[i] == s[i]);
        } else if 8 < i < 13 {
            assert(h[i] == s[i - 1]);
        } else if 13 < i < 18 {
            assert(h[i] == s[i - 2]);
        } else if 18 < i < 23 {
            assert(h[i] == s[i - 3]);
        } else if 23 < i {
            assert(h[i] == s[i - 4]);
        }
    }
}

} // verus!
