//! Device identifiers written in base 16.

use crate::text::ascii_bytes;
use vstd::prelude::*;

verus! {

/// The value of a hexadecimal digit, in either case.
pub open spec fn digit_value(c: char) -> Option<nat> {
    if '0' <= c <= '9' {
        Some((c as int - '0' as int) as nat)
    } else if 'a' <= c <= 'f' {
        Some((c as int - 'a' as int + 10) as nat)
    } else if 'A' <= c <= 'F' {
        Some((c as int - 'A' as int + 10) as nat)
    } else {
        None
    }
}

/// Every character of `s` is a hexadecimal digit.
pub open spec fn all_digits(s: Seq<char>) -> bool {
    forall|i: int| 0 <= i < s.len() ==> (#[trigger] digit_value(s[i])) is Some
}

/// The number that the digits of `s` denote, most significant digit first.
pub open spec fn digits_value(s: Seq<char>) -> nat
    decreases s.len(),
{
    if s.len() == 0 {
        0
    } else {
        16 * digits_value(s.drop_last()) + digit_value(s.last()).unwrap()
    }
}

/// `s` without the one plus sign that may stand in front of the digits.
pub open spec fn unsigned_part(s: Seq<char>) -> Seq<char> {
    if s.len() > 0 && s[0] == '+' {
        s.drop_first()
    } else {
        s
    }
}

/// What `s` denotes as a 16-bit identifier: an optional plus sign followed by
/// at least one hexadecimal digit, with a value of at most `0xffff`.
pub open spec fn hex16(s: Seq<char>) -> Option<u16> {
    let digits = unsigned_part(s);
    if digits.len() > 0 && all_digits(digits) && digits_value(digits) <= 0xffff {
        Some(digits_value(digits) as u16)
    } else {
        None
    }
}

/// What is left of a run of digits without its last one is a run of digits.
proof fn lemma_front_is_digits(s: Seq<char>)
    requires
        s.len() > 0,
        all_digits(s),
    ensures
        all_digits(s.drop_last()),
        digit_value(s.last()) is Some,
{
    let front = s.drop_last();
    assert forall|i: int| 0 <= i < front.len() implies (#[trigger] digit_value(front[i])) is Some by {
        assert(front[i] == s[i]);
    }
    assert(s.last() == s[s.len() - 1]);
}

/// A longer run of digits never denotes a smaller number than its prefix.
pub proof fn lemma_value_grows(s: Seq<char>, k: int)
    requires
        0 <= k <= s.len(),
        all_digits(s),
    ensures
        digits_value(s.take(k)) <= digits_value(s),
    decreases s.len(),
{
    if k == s.len() {
        assert(s.take(k) =~= s);
    } else {
        lemma_front_is_digits(s);
        lemma_value_grows(s.drop_last(), k);
        assert(s.drop_last().take(k) =~= s.take(k));
    }
}

/// A run of digits denotes a number below sixteen to the power of its length.
proof fn lemma_value_is_bounded(s: Seq<char>)
    requires
        all_digits(s),
    ensures
        digits_value(s) < vstd::arithmetic::power::pow(16, s.len()),
    decreases s.len(),
{
    reveal(vstd::arithmetic::power::pow);
    if s.len() > 0 {
        lemma_front_is_digits(s);
        lemma_value_is_bounded(s.drop_last());
        assert(digit_value(s.last()).unwrap() < 16);
    }
}

/// A text that holds anything but hexadecimal digits, after the plus sign that
/// may lead it, is no identifier.
pub proof fn lemma_stray_character_is_refused(s: Seq<char>, i: int)
    requires
        0 <= i < s.len(),
        digit_value(s[i]) is None,
        i > 0 || s[0] != '+',
    ensures
        hex16(s) is None,
{
    let digits = unsigned_part(s);
    if digits.len() < s.len() {
        assert(digits[i - 1] == s[i]);
    } else {
        assert(digits[i] == s[i]);
    }
}

/// One to four hexadecimal digits are always an identifier: the number that
/// they denote.
pub proof fn lemma_four_digits_are_read(s: Seq<char>)
    requires
        1 <= s.len() <= 4,
        all_digits(s),
    ensures
        hex16(s) == Some(digits_value(s) as u16),
        digits_value(s) <= 0xffff,
{
    assert(s[0] != '+') by {
        assert(digit_value(s[0]) is Some);
    }
    lemma_value_is_bounded(s);
    assert(vstd::arithmetic::power::pow(16, s.len()) <= 0x10000) by {
        reveal_with_fuel(vstd::arithmetic::power::pow, 5);
    }
}

const PLUS: u8 = 0x2b;

const DIGIT_0: u8 = 0x30;

const DIGIT_9: u8 = 0x39;

const UPPER_A: u8 = 0x41;

const UPPER_F: u8 = 0x46;

const LOWER_A: u8 = 0x61;

const LOWER_F: u8 = 0x66;

fn digit_of(b: u8, Ghost(c): Ghost<char>) -> (r: Option<u8>)
    requires
        c as int == b as int,
    ensures
        match r {
            Some(v) => digit_value(c) == Some(v as nat),
            None => digit_value(c) is None,
        },
{
    if DIGIT_0 <= b && b <= DIGIT_9 {
        Some(b - DIGIT_0)
    } else if LOWER_A <= b && b <= LOWER_F {
        Some(b - LOWER_A + 10)
    } else if UPPER_A <= b && b <= UPPER_F {
        Some(b - UPPER_A + 10)
    } else {
        None
    }
}

/// Reads a 16-bit identifier written in base 16: hexadecimal digits of
/// either case, at least one, which a single plus sign may lead. Anything
/// else in the text (a `0x` in front, a minus sign, a blank, an underscore),
/// or a value above `0xffff`, gives `None`.
pub fn parse_hex_u16(s: &str) -> (r: Option<u16>)
    ensures
        r == hex16(s@),
{
    if !s.is_ascii() {
        proof {
            let i = choose|i: int| 0 <= i < s@.len() && !('\0' <= #[trigger] s@[i] <= '\u{7f}');
            lemma_stray_character_is_refused(s@, i);
        }
        return None;
    }
    let bytes = ascii_bytes(s);
    let n: usize = bytes.len();
    let start: usize = if n > 0 && bytes[0] == PLUS {
        1
    } else {
        0
    };
    let ghost digits = unsigned_part(s@);
    assert(digits =~= s@.subrange(start as int, n as int));
    if start == n {
        return None;
    }
    let mut acc: u32 = 0;
    let mut i: usize = start;
    while i < n
        invariant
            start <= i <= n,
            n == s@.len(),
            bytes@.len() == n,
            forall|j: int| 0 <= j < n ==> (#[trigger] bytes@[j]) as int == s@[j] as int,
            digits == unsigned_part(s@),
            digits =~= s@.subrange(start as int, n as int),
            all_digits(digits.take(i - start)),
            acc == digits_value(digits.take(i - start)),
            acc <= 0xffff,
        decreases n - i,
    {
        let ghost seen = digits.take(i - start + 1);
        assert(seen.drop_last() =~= digits.take(i - start));
        assert(seen.last() == s@[i as int]);
        match digit_of(bytes[i], Ghost(s@[i as int])) {
            None => {
                assert(digit_value(digits[i - start]) is None);
                return None;
            },
            Some(v) => {
                acc = acc * 16 + v as u32;
                assert(acc == digits_value(seen));
                assert(all_digits(seen)) by {
                    assert forall|j: int| 0 <= j < seen.len() implies (#[trigger] digit_value(
                        seen[j],
                    )) is Some by {
                        if j < seen.len() - 1 {
                            assert(seen[j] == digits.take(i - start)[j]);
                        }
                    }
                }
                if acc > 0xffff {
                    proof {
                        if all_digits(digits) {
                            lemma_value_grows(digits, i - start + 1);
                        }
                    }
                    return None;
                }
            },
        }
        i = i + 1;
    }
    assert(digits.take(i - start) =~= digits);
    Some(acc as u16)
}

} // verus!
