//! Numbers in messages.

use vstd::prelude::*;
use vstd::string::StringExecFns;

verus! {

/// The character of a decimal digit.
pub open spec fn digit(value: int) -> char {
    (48 + value) as char
}

/// The decimal digits of a number.
pub open spec fn digits(value: nat) -> Seq<char>
    decreases value,
{
    if value < 10 {
        seq![digit(value as int)]
    } else {
        digits(value / 10).push(digit((value % 10) as int))
    }
}

/// A number as messages show it.
pub open spec fn number(value: int) -> Seq<char> {
    if value < 0 {
        "-"@ + digits((-value) as nat)
    } else {
        digits(value as nat)
    }
}

/// A decimal digit as text.
fn digit_text(value: usize) -> (result: &'static str)
    requires
        value < 10,
    ensures
        result@ == seq![digit(value as int)],
{
    proof {
        reveal_strlit("0");
        reveal_strlit("1");
        reveal_strlit("2");
        reveal_strlit("3");
        reveal_strlit("4");
        reveal_strlit("5");
        reveal_strlit("6");
        reveal_strlit("7");
        reveal_strlit("8");
        reveal_strlit("9");
    }
    let text = match value {
        0 => "0",
        1 => "1",
        2 => "2",
        3 => "3",
        4 => "4",
        5 => "5",
        6 => "6",
        7 => "7",
        8 => "8",
        _ => "9",
    };
    assert(text@ =~= seq![digit(value as int)]);
    text
}

/// Appends the decimal digits of a number.
fn append_digits(text: &mut String, value: usize)
    ensures
        final(text)@ == old(text)@ + digits(value as nat),
    decreases value,
{
    let ghost before = text@;
    if value >= 10 {
        append_digits(text, value / 10);
    }
    text.append(digit_text(value % 10));
    assert(text@ =~= before + digits(value as nat));
}

/// Appends a number.
pub fn append_number(text: &mut String, value: isize)
    ensures
        final(text)@ == old(text)@ + number(value as int),
{
    let ghost before = text@;
    if value < 0 {
        text.append("-");
        append_digits(text, (-(value + 1)) as usize + 1);
    } else {
        append_digits(text, value as usize);
    }
    assert(text@ =~= before + number(value as int));
}

} // verus!
