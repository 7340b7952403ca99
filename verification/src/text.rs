//! Text that error messages and cursors are made of.

use vstd::prelude::*;
use vstd::string::*;

verus! {

/// The decimal digit of `d`.
pub open spec fn digit(d: nat) -> char {
    (('0' as u32) + d) as char
}

/// `n` in decimal, without leading zeros.
pub open spec fn decimal(n: nat) -> Seq<char>
    decreases n,
{
    if n < 10 {
        seq![digit(n)]
    } else {
        decimal(n / 10).push(digit(n % 10))
    }
}

fn digit_text(d: usize) -> (text: &'static str)
    requires
        d < 10,
    ensures
        text@ == seq![digit(d as nat)],
{
    proof {
        reveal_strlit("0");
        reveal_strlit("1");
        reveal_strlit("2");
        reveal_strlit("3");
        reveal_strlit("4");
        reveal_strlit("5");
        reveal_strlit("6");
        reveal_strlit("7");
        reveal_strlit("8");
        reveal_strlit("9");
    }
    match d {
        0 => "0",
        1 => "1",
        2 => "2",
        3 => "3",
        4 => "4",
        5 => "5",
        6 => "6",
        7 => "7",
        8 => "8",
        _ => "9",
    }
}

/// `n` in decimal, without leading zeros.
pub fn decimal_text(n: usize) -> (text: String)
    ensures
        text@ == decimal(n as nat),
    decreases n,
{
    if n < 10 {
        digit_text(n).to_owned()
    } else {
        let mut text = decimal_text(n / 10);
        text.append(digit_text(n % 10));
        text
    }
}

/// The characters with Unicode's `White_Space` property.
pub open spec fn is_white_space(c: char) -> bool {
    let code = c as u32;
    ||| 0x09 <= code <= 0x0d
    ||| code == 0x20
    ||| code == 0x85
    ||| code == 0xa0
    ||| code == 0x1680
    ||| 0x2000 <= code <= 0x200a
    ||| code == 0x2028
    ||| code == 0x2029
    ||| code == 0x202f
    ||| code == 0x205f
    ||| code == 0x3000
}

/// `s` without the white space at its start and at its end.
pub open spec fn trimmed(s: Seq<char>) -> Seq<char>
    decreases s.len(),
{
    if s.len() > 0 && is_white_space(s.first()) {
        trimmed(s.drop_first())
    } else if s.len() > 0 && is_white_space(s.last()) {
        trimmed(s.drop_last())
    } else {
        s
    }
}

/// Calls `str::trim`. The contract claims that it removes the longest run of
/// Unicode white space at either end and nothing else.
#[verifier::external_body]
pub(crate) fn trim(text: &str) -> (rest: &str)
    ensures
        rest@ == trimmed(text@),
{
    text.trim()
}

/// Trimming takes away a run of white space at either end, up to the first and the
/// last character that are no white space, and leaves all between them: `kept` is
/// where that begins and ends.
pub proof fn law_trimming_takes_white_space_at_the_ends(s: Seq<char>) -> (kept: (int, int))
    ensures
        0 <= kept.0 <= kept.1 <= s.len(),
        trimmed(s) == s.subrange(kept.0, kept.1),
        forall|i: int| 0 <= i < kept.0 ==> is_white_space(#[trigger] s[i]),
        forall|i: int| kept.1 <= i < s.len() ==> is_white_space(#[trigger] s[i]),
        kept.0 < kept.1 ==> !is_white_space(s[kept.0]) && !is_white_space(s[kept.1 - 1]),
    decreases s.len(),
{
    if s.len() > 0 && is_white_space(s.first()) {
        let rest = s.drop_first();
        let inner = law_trimming_takes_white_space_at_the_ends(rest);
        let kept = (inner.0 + 1, inner.1 + 1);
        assert(rest.subrange(inner.0, inner.1) == s.subrange(kept.0, kept.1));
        assert forall|i: int| 0 <= i < kept.0 implies is_white_space(#[trigger] s[i]) by {
            assert(i > 0 ==> s[i] == rest[i - 1]);
        }
        assert forall|i: int| kept.1 <= i < s.len() implies is_white_space(#[trigger] s[i]) by {
            assert(s[i] == rest[i - 1]);
        }
        kept
    } else if s.len() > 0 && is_white_space(s.last()) {
        let rest = s.drop_last();
        let kept = law_trimming_takes_white_space_at_the_ends(rest);
        assert(rest.subrange(kept.0, kept.1) == s.subrange(kept.0, kept.1));
        assert forall|i: int| 0 <= i < kept.0 implies is_white_space(#[trigger] s[i]) by {
            assert(s[i] == rest[i]);
        }
        assert forall|i: int| kept.1 <= i < s.len() implies is_white_space(#[trigger] s[i]) by {
            assert(i < s.len() - 1 ==> s[i] == rest[i]);
        }
        kept
    } else {
        assert(s.subrange(0, s.len() as int) == s);
        (0, s.len() as int)
    }
}

/// Nothing is left of a text by trimming if and only if it is white space
/// throughout.
pub proof fn law_nothing_is_left_of_white_space(s: Seq<char>)
    ensures
        trimmed(s).len() == 0 <==> forall|i: int|
            0 <= i < s.len() ==> is_white_space(#[trigger] s[i]),
{
    let kept = law_trimming_takes_white_space_at_the_ends(s);
    if kept.0 < kept.1 {
        assert(!is_white_space(s[kept.0]));
    }
}

/// The number that digits stand for.
pub open spec fn number_of(digits: Seq<char>) -> int
    decreases digits.len(),
{
    if digits.len() == 0 {
        0
    } else {
        number_of(digits.drop_last()) * 10 + (digits.last() as u32 - '0' as u32)
    }
}

/// A number in decimal is made of digits, reads back as the number, and starts with
/// a zero only where it is zero.
pub proof fn law_decimal_reads_back(n: nat)
    ensures
        decimal(n).len() > 0,
        forall|i: int| 0 <= i < decimal(n).len() ==> '0' <= #[trigger] decimal(n)[i] <= '9',
        number_of(decimal(n)) == n,
        decimal(n)[0] == '0' ==> n == 0 && decimal(n).len() == 1,
    decreases n,
{
    let text = decimal(n);
    if n < 10 {
        assert(text.drop_last().len() == 0);
        assert(number_of(text.drop_last()) == 0);
    } else {
        law_decimal_reads_back(n / 10);
        assert(text.drop_last() == decimal(n / 10));
        assert forall|i: int| 0 <= i < text.len() implies '0' <= #[trigger] text[i] <= '9' by {
            if i < text.len() - 1 {
                assert(text[i] == decimal(n / 10)[i]);
            }
        }
        assert(text[0] == decimal(n / 10)[0]);
    }
}

/// The text of a number is made of digits, reads back as the number, and starts with
/// a zero only where the number is zero.
pub proof fn law_number_reads_back(n: usize, text: String)
    requires
        call_ensures(decimal_text, (n,), text),
    ensures
        text@.len() > 0,
        forall|i: int| 0 <= i < text@.len() ==> '0' <= #[trigger] text@[i] <= '9',
        number_of(text@) == n,
        text@[0] == '0' ==> n == 0 && text@.len() == 1,
{
    law_decimal_reads_back(n as nat);
}

} // verus!
