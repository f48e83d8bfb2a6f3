//! Character classes and decimal rendering, the two things the rules on user
//! names, passwords, titles and bearer tokens are stated with.

use vstd::prelude::*;

verus! {

/// Whether `c` is white space: a character that Unicode marks as
/// `White_Space`.
pub open spec fn is_whitespace(c: char) -> bool {
    let code = c as u32;
    ||| 0x09 <= code <= 0x0d
    ||| code == 0x20
    ||| code == 0x85
    ||| code == 0xa0
    ||| code == 0x1680
    ||| 0x2000 <= code <= 0x200a
    ||| code == 0x2028
    ||| code == 0x2029
    ||| code == 0x202f
    ||| code == 0x205f
    ||| code == 0x3000
}

/// A text is blank when nothing but white space is in it; the empty text is
/// blank.
pub open spec fn is_blank(text: Seq<char>) -> bool {
    forall|i: int| 0 <= i < text.len() ==> is_whitespace(#[trigger] text[i])
}

/// Whether white space occurs anywhere in the text.
pub open spec fn has_whitespace(text: Seq<char>) -> bool {
    exists|i: int| 0 <= i < text.len() && is_whitespace(#[trigger] text[i])
}

/// The character for one decimal digit.
pub open spec fn digit(d: nat) -> char
    recommends
        d < 10,
{
    if d == 0 {
        '0'
    } else if d == 1 {
        '1'
    } else if d == 2 {
        '2'
    } else if d == 3 {
        '3'
    } else if d == 4 {
        '4'
    } else if d == 5 {
        '5'
    } else if d == 6 {
        '6'
    } else if d == 7 {
        '7'
    } else if d == 8 {
        '8'
    } else {
        '9'
    }
}

/// The decimal numeral of `n`: most significant digit first, no leading zero
/// but for zero itself.
pub open spec fn decimal(n: nat) -> Seq<char>
    decreases n,
{
    if n < 10 {
        seq![digit(n)]
    } else {
        decimal(n / 10).push(digit(n % 10))
    }
}

/// The decimal numeral of an integer, with a minus sign where it is negative.
pub open spec fn signed_decimal(i: int) -> Seq<char> {
    if i < 0 {
        seq!['-'] + decimal((-i) as nat)
    } else {
        decimal(i as nat)
    }
}

pub fn whitespace(c: char) -> (b: bool)
    ensures
        b == is_whitespace(c),
{
    let code: u32 = c as u32;
    (0x09 <= code && code <= 0x0d) || code == 0x20 || code == 0x85 || code == 0xa0 || code
        == 0x1680 || (0x2000 <= code && code <= 0x200a) || code == 0x2028 || code == 0x2029
        || code == 0x202f || code == 0x205f || code == 0x3000
}

/// Whether the text is blank.
pub fn blank(text: &str) -> (b: bool)
    ensures
        b == is_blank(text@),
{
    for c in it: text.chars()
        invariant
            it.seq() == text@,
            forall|j: int| 0 <= j < it.index() ==> is_whitespace(#[trigger] text@[j]),
    {
        if !whitespace(c) {
            return false;
        }
    }
    true
}

/// Whether white space occurs in the text.
pub fn contains_whitespace(text: &str) -> (b: bool)
    ensures
        b == has_whitespace(text@),
{
    for c in it: text.chars()
        invariant
            it.seq() == text@,
            forall|j: int| 0 <= j < it.index() ==> !is_whitespace(#[trigger] text@[j]),
    {
        if whitespace(c) {
            return true;
        }
    }
    false
}

/// The text of one decimal digit.
fn digit_text(d: u64) -> (s: &'static str)
    requires
        d < 10,
    ensures
        s@ == seq![digit(d as nat)],
{
    proof {
        reveal_strlit("0");
        reveal_strlit("1");
        reveal_strlit("2");
        reveal_strlit("3");
        reveal_strlit("4");
        reveal_strlit("5");
        reveal_strlit("6");
        reveal_strlit("7");
        reveal_strlit("8");
        reveal_strlit("9");
    }
    let s = if d == 0 {
        "0"
    } else if d == 1 {
        "1"
    } else if d == 2 {
        "2"
    } else if d == 3 {
        "3"
    } else if d == 4 {
        "4"
    } else if d == 5 {
        "5"
    } else if d == 6 {
        "6"
    } else if d == 7 {
        "7"
    } else if d == 8 {
        "8"
    } else {
        "9"
    };
    s
}

/// Appends the decimal numeral of `n` to `out`.
pub fn push_decimal(out: &mut String, n: u64)
    ensures
        final(out)@ == old(out)@ + decimal(n as nat),
    decreases n,
{
    if n >= 10 {
        push_decimal(out, n / 10);
    }
    out.append(digit_text(n % 10));
}

/// Appends the decimal numeral of `i`, with its sign, to `out`.
pub fn push_signed_decimal(out: &mut String, i: i64)
    ensures
        final(out)@ == old(out)@ + signed_decimal(i as int),
{
    if i < 0 {
        proof {
            reveal_strlit("-");
        }
        out.append("-");
        let magnitude: u64 = ((-(i + 1)) as u64) + 1;
        push_decimal(out, magnitude);
    } else {
        push_decimal(out, i as u64);
    }
}

/// The decimal numeral of `n`.
pub fn numeral(n: u64) -> (s: String)
    ensures
        s@ == decimal(n as nat),
{
    let mut s = String::new();
    push_decimal(&mut s, n);
    s
}

/// A numeral is never empty.
pub proof fn lemma_decimal_len(n: nat)
    ensures
        decimal(n).len() >= 1,
        n >= 10 ==> decimal(n).len() >= 2,
    decreases n,
{
    if n >= 10 {
        lemma_decimal_len(n / 10);
    }
}

/// Different numbers have different numerals.
pub proof fn lemma_decimal_injective(a: nat, b: nat)
    requires
        decimal(a) == decimal(b),
    ensures
        a == b,
    decreases a,
{
    lemma_decimal_len(a);
    lemma_decimal_len(b);
    if a < 10 || b < 10 {
        // Both numerals have one digit, and it is the same.
        assert(decimal(a)[0] == digit(a));
        assert(decimal(b)[0] == digit(b));
    } else {
        // The last digits are the same, and so is what stands before them.
        assert(decimal(a).drop_last() =~= decimal(a / 10));
        assert(decimal(b).drop_last() =~= decimal(b / 10));
        assert(decimal(a).last() == digit(a % 10));
        assert(decimal(b).last() == digit(b % 10));
        lemma_decimal_injective(a / 10, b / 10);
    }
}

} // verus!
