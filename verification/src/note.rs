//! The file in which the note is written before it is printed.

use vstd::prelude::*;
use vstd::string::StringExecFns;

verus! {

/// The character that stands for a digit below ten.
pub open spec fn digit_char(d: nat) -> char {
    ('0' as u8 + d) as u8 as char
}

/// `n` written in base ten, without leading zeros.
pub open spec fn decimal(n: nat) -> Seq<char>
    decreases n,
{
    if n < 10 {
        seq![digit_char(n)]
    } else {
        decimal(n / 10).push(digit_char(n % 10))
    }
}

/// What every note file's name starts with.
pub open spec fn note_prefix() -> Seq<char> {
    "thermalnote_"@
}

/// The name of the note file made at `millis` milliseconds since the epoch.
pub open spec fn note_name(millis: nat) -> Seq<char> {
    note_prefix() + decimal(millis)
}

/// The number that a run of decimal digits denotes.
pub open spec fn number(digits: Seq<char>) -> int
    decreases digits.len(),
{
    if digits.len() == 0 {
        0
    } else {
        10 * number(digits.drop_last()) + (digits.last() as int - '0' as int)
    }
}

/// A number can be read back from the way it is written.
pub proof fn lemma_decimal_reads_back(n: nat)
    ensures
        number(decimal(n)) == n,
    decreases n,
{
    if n < 10 {
        assert(decimal(n).drop_last() =~= Seq::<char>::empty());
        assert(number(decimal(n).drop_last()) == 0);
    } else {
        lemma_decimal_reads_back(n / 10);
        assert(decimal(n).drop_last() =~= decimal(n / 10));
    }
}

/// Notes made at different milliseconds have different names.
pub proof fn lemma_names_are_unique(a: nat, b: nat)
    requires
        a != b,
    ensures
        note_name(a) != note_name(b),
{
    lemma_decimal_reads_back(a);
    lemma_decimal_reads_back(b);
    let p = note_prefix().len() as int;
    assert(note_name(a).subrange(p, note_name(a).len() as int) =~= decimal(a));
    assert(note_name(b).subrange(p, note_name(b).len() as int) =~= decimal(b));
}

fn digit_text(d: u8) -> (r: &'static str)
    requires
        d < 10,
    ensures
        r@ == seq![digit_char(d as nat)],
{
    proof {
        reveal_strlit("0");
        reveal_strlit("1");
        reveal_strlit("2");
        reveal_strlit("3");
        reveal_strlit("4");
        reveal_strlit("5");
        reveal_strlit("6");
        reveal_strlit("7");
        reveal_strlit("8");
        reveal_strlit("9");
    }
    let r = match d {
        0 => "0",
        1 => "1",
        2 => "2",
        3 => "3",
        4 => "4",
        5 => "5",
        6 => "6",
        7 => "7",
        8 => "8",
        _ => "9",
    };
    assert(r@ =~= seq![digit_char(d as nat)]);
    r
}

fn append_decimal(out: &mut String, n: u128)
    ensures
        final(out)@ == old(out)@ + decimal(n as nat),
    decreases n,
{
    if n >= 10 {
        append_decimal(out, n / 10);
    }
    out.append(digit_text((n % 10) as u8));
    assert(final(out)@ =~= old(out)@ + decimal(n as nat));
}

/// The name of the note file made at `millis` milliseconds since the epoch.
pub fn note_file_name(millis: u128) -> (r: String)
    ensures
        r@ == note_name(millis as nat),
{
    let mut out = String::from_str("thermalnote_");
    append_decimal(&mut out, millis);
    out
}

} // verus!
