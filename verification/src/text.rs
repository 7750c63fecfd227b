//! Comparing pieces of text.

use vstd::prelude::*;

verus! {

/// The characters of a text that may be missing.
pub open spec fn text_of(value: Option<&str>) -> Option<Seq<char>> {
    match value {
        Some(text) => Some(text@),
        None => None,
    }
}

/// The upper-case form of an ASCII letter; any other character is left alone.
pub open spec fn upper(c: char) -> char {
    if 'a' <= c <= 'z' {
        (c as u8 - 32) as u8 as char
    } else {
        c
    }
}

/// `a` and `b` are the same text but for the case of their ASCII letters.
pub open spec fn same_ignoring_case(a: Seq<char>, b: Seq<char>) -> bool {
    &&& a.len() == b.len()
    &&& forall|i: int| 0 <= i < a.len() ==> upper(#[trigger] a[i]) == upper(b[i])
}

/// Being the same text but for case is reflexive, symmetric and transitive.
pub proof fn lemma_same_ignoring_case_is_equivalence(a: Seq<char>, b: Seq<char>, c: Seq<char>)
    ensures
        same_ignoring_case(a, a),
        same_ignoring_case(a, b) ==> same_ignoring_case(b, a),
        same_ignoring_case(a, b) && same_ignoring_case(b, c) ==> same_ignoring_case(a, c),
{
    if same_ignoring_case(a, b) {
        assert forall|i: int| 0 <= i < b.len() implies upper(#[trigger] b[i]) == upper(a[i]) by {
            assert(upper(a[i]) == upper(b[i]));
        }
        if same_ignoring_case(b, c) {
            assert forall|i: int| 0 <= i < a.len() implies upper(#[trigger] a[i]) == upper(
                c[i],
            ) by {
                assert(upper(b[i]) == upper(c[i]));
            }
        }
    }
}

/// `part` stands somewhere in `text`, in one piece.
pub open spec fn holds(text: Seq<char>, part: Seq<char>) -> bool {
    exists|at: int|
        0 <= at && at + part.len() <= text.len() && #[trigger] text.subrange(
            at,
            at + part.len(),
        ) == part
}

/// A text holds what it was put together from.
pub proof fn lemma_holds_its_parts(before: Seq<char>, part: Seq<char>, after: Seq<char>)
    ensures
        holds(before + part + after, part),
{
    let text = before + part + after;
    let at = before.len() as int;
    assert(text.subrange(at, at + part.len()) =~= part);
}

/// A text that holds `part` still holds it when more is put after it.
pub proof fn lemma_holds_in_longer(text: Seq<char>, part: Seq<char>, more: Seq<char>)
    requires
        holds(text, part),
    ensures
        holds(text + more, part),
{
    let at = choose|at: int|
        0 <= at && at + part.len() <= text.len() && #[trigger] text.subrange(
            at,
            at + part.len(),
        ) == part;
    assert((text + more).subrange(at, at + part.len()) =~= part);
}

/// How many commas `text` holds.
pub open spec fn commas(text: Seq<char>) -> nat
    decreases text.len(),
{
    if text.len() == 0 {
        0
    } else {
        commas(text.drop_last()) + if text.last() == ',' {
            1nat
        } else {
            0nat
        }
    }
}

/// The commas of a text are those of its two halves.
pub proof fn lemma_commas_of_parts(a: Seq<char>, b: Seq<char>)
    ensures
        commas(a + b) == commas(a) + commas(b),
    decreases b.len(),
{
    if b.len() == 0 {
        assert(a + b =~= a);
    } else {
        assert((a + b).drop_last() =~= a + b.drop_last());
        lemma_commas_of_parts(a, b.drop_last());
    }
}

/// A text in which no comma occurs holds none.
pub proof fn lemma_commas_of_plain(text: Seq<char>)
    requires
        !text.contains(','),
    ensures
        commas(text) == 0,
    decreases text.len(),
{
    if text.len() > 0 {
        let front = text.drop_last();
        assert(text.last() == text[text.len() - 1]);
        assert forall|i: int| 0 <= i < front.len() implies front[i] != ',' by {
            assert(front[i] == text[i]);
        }
        lemma_commas_of_plain(front);
    }
}

/// Two texts are equal exactly when their UTF-8 encodings are.
proof fn lemma_encoding_tells_texts_apart(a: Seq<char>, b: Seq<char>)
    ensures
        (a == b) <==> (vstd::utf8::encode_utf8(a) == vstd::utf8::encode_utf8(b)),
{
    vstd::utf8::encode_utf8_decode_utf8(a);
    vstd::utf8::encode_utf8_decode_utf8(b);
}

/// Whether `a` and `b` are the same text.
pub(crate) fn same(a: &str, b: &str) -> (r: bool)
    ensures
        r == (a@ == b@),
{
    let x = a.as_bytes();
    let y = b.as_bytes();
    proof {
        lemma_encoding_tells_texts_apart(a@, b@);
    }
    assert(x@ == vstd::utf8::encode_utf8(a@));
    assert(y@ == vstd::utf8::encode_utf8(b@));
    let n: usize = x.len();
    if n != y.len() {
        return false;
    }
    let mut i: usize = 0;
    while i < n
        invariant
            i <= n,
            x@.len() == n,
            y@.len() == n,
            (a@ == b@) <==> (x@ == y@),
            forall|j: int| 0 <= j < i ==> x@[j] == y@[j],
        decreases n - i,
    {
        if x[i] != y[i] {
            return false;
        }
        i = i + 1;
    }
    assert(x@ =~= y@);
    true
}

/// The bytes of a text of ASCII characters: one for each character, with
/// its code.
pub(crate) fn ascii_bytes(text: &str) -> (r: &[u8])
    requires
        vstd::utf8::is_ascii_chars(text@),
    ensures
        r@.len() == text@.len(),
        forall|i: int| 0 <= i < r@.len() ==> (#[trigger] r@[i]) as int == text@[i] as int,
{
    let r = text.as_bytes();
    proof {
        broadcast use vstd::string::is_ascii_spec_bytes;

        assert(vstd::string::is_ascii(text));
        assert(r@ =~= Seq::new(text@.len(), |i: int| text@[i] as u8));
        assert forall|i: int| 0 <= i < r@.len() implies (#[trigger] r@[i]) as int
            == text@[i] as int by {
            assert('\0' <= text@[i] <= '\u{7f}');
        }
    }
    r
}

const LOWER_A: u8 = 0x61;

const LOWER_Z: u8 = 0x7a;

const CASE_GAP: u8 = 0x20;

fn upper_byte(b: u8, Ghost(c): Ghost<char>) -> (r: u8)
    requires
        c as int == b as int,
    ensures
        r as int == upper(c) as int,
{
    if LOWER_A <= b && b <= LOWER_Z {
        b - CASE_GAP
    } else {
        b
    }
}

/// Whether `text` is the ASCII text `name` but for the case of its letters.
pub(crate) fn same_but_for_case(text: &str, name: &str) -> (r: bool)
    requires
        vstd::utf8::is_ascii_chars(name@),
    ensures
        r == same_ignoring_case(text@, name@),
{
    if !text.is_ascii() {
        proof {
            let i = choose|i: int|
                0 <= i < text@.len() && !('\0' <= #[trigger] text@[i] <= '\u{7f}');
            if text@.len() == name@.len() {
                assert('\0' <= name@[i] <= '\u{7f}');
                assert(upper(text@[i]) != upper(name@[i]));
            }
        }
        return false;
    }
    let a = ascii_bytes(text);
    let b = ascii_bytes(name);
    let n: usize = a.len();
    if n != b.len() {
        return false;
    }
    let mut i: usize = 0;
    while i < n
        invariant
            i <= n,
            n == text@.len(),
            n == name@.len(),
            a@.len() == n,
            b@.len() == n,
            forall|j: int| 0 <= j < n ==> (#[trigger] a@[j]) as int == text@[j] as int,
            forall|j: int| 0 <= j < n ==> (#[trigger] b@[j]) as int == name@[j] as int,
            forall|j: int| 0 <= j < i ==> upper(#[trigger] text@[j]) == upper(name@[j]),
        decreases n - i,
    {
        let x = upper_byte(a[i], Ghost(text@[i as int]));
        let y = upper_byte(b[i], Ghost(name@[i as int]));
        if x != y {
            assert(upper(text@[i as int]) != upper(name@[i as int]));
            return false;
        }
        i = i + 1;
    }
    true
}

} // verus!
