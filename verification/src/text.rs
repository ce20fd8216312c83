//! Decimal text for the numbers that the time values print.

use vstd::prelude::*;
use vstd::string::StringExecFns;

verus! {

/// The character of a decimal digit.
pub open spec fn digit_char(digit: nat) -> char {
    seq!['0', '1', '2', '3', '4', '5', '6', '7', '8', '9'][digit as int]
}

/// `value` in decimal, without leading zeros.
pub open spec fn decimal_text(value: nat) -> Seq<char>
    decreases value,
{
    if value < 10 {
        seq![digit_char(value)]
    } else {
        decimal_text(value / 10).push(digit_char(value % 10))
    }
}

/// `value` in decimal, with a leading zero where it has a single digit.
pub open spec fn two_digit_text(value: nat) -> Seq<char> {
    if value < 10 {
        seq!['0', digit_char(value)]
    } else {
        decimal_text(value)
    }
}

/// The lowest `width` decimal digits of `value`, leading zeros included.
pub open spec fn fixed_text(value: nat, width: nat) -> Seq<char>
    decreases width,
{
    if width == 0 {
        Seq::empty()
    } else {
        fixed_text(value / 10, (width - 1) as nat).push(digit_char(value % 10))
    }
}

/// The lowest `width` decimal digits of `value` as the digits of a fraction:
/// leading zeros included, trailing zeros left out. Of zero nothing is left.
pub open spec fn fraction_text(value: nat, width: nat) -> Seq<char>
    decreases width,
{
    if width == 0 {
        Seq::empty()
    } else if value % 10 == 0 {
        fraction_text(value / 10, (width - 1) as nat)
    } else {
        fixed_text(value, width)
    }
}

/// A count of nanoseconds as seconds in decimal: the whole seconds and, where
/// there is a fraction, a point and its digits down to the last that is not
/// zero.
pub open spec fn seconds_text(nanos: nat) -> Seq<char> {
    let whole = decimal_text(nanos / 1_000_000_000);
    if nanos % 1_000_000_000 == 0 {
        whole
    } else {
        whole + seq!['.'] + fraction_text(nanos % 1_000_000_000, 9)
    }
}

/// The text of one decimal digit.
fn digit_str(digit: u64) -> (text: &'static str)
    requires
        digit < 10,
    ensures
        text@ == seq![digit_char(digit as nat)],
{
    proof {
        reveal_strlit("0");
        reveal_strlit("1");
        reveal_strlit("2");
        reveal_strlit("3");
        reveal_strlit("4");
        reveal_strlit("5");
        reveal_strlit("6");
        reveal_strlit("7");
        reveal_strlit("8");
        reveal_strlit("9");
    }
    let text = if digit == 0 {
        "0"
    } else if digit == 1 {
        "1"
    } else if digit == 2 {
        "2"
    } else if digit == 3 {
        "3"
    } else if digit == 4 {
        "4"
    } else if digit == 5 {
        "5"
    } else if digit == 6 {
        "6"
    } else if digit == 7 {
        "7"
    } else if digit == 8 {
        "8"
    } else {
        "9"
    };
    assert(text@ =~= seq![digit_char(digit as nat)]);
    text
}

/// Appends `value` in decimal.
pub(crate) fn push_decimal(text: &mut String, value: u64)
    ensures
        final(text)@ == old(text)@ + decimal_text(value as nat),
    decreases value,
{
    if value >= 10 {
        push_decimal(text, value / 10);
    }
    text.append(digit_str(value % 10));
    assert(text@ =~= old(text)@ + decimal_text(value as nat));
}

/// Appends `value` in decimal, with a leading zero where it has a single
/// digit.
pub(crate) fn push_two_digits(text: &mut String, value: u64)
    ensures
        final(text)@ == old(text)@ + two_digit_text(value as nat),
{
    if value < 10 {
        text.append(digit_str(0));
        text.append(digit_str(value));
        assert(text@ =~= old(text)@ + two_digit_text(value as nat));
    } else {
        push_decimal(text, value);
    }
}

/// Appends the lowest `width` decimal digits of `value`.
fn push_fixed(text: &mut String, value: u64, width: u32)
    ensures
        final(text)@ == old(text)@ + fixed_text(value as nat, width as nat),
    decreases width,
{
    if width > 0 {
        push_fixed(text, value / 10, width - 1);
        text.append(digit_str(value % 10));
    }
    assert(text@ =~= old(text)@ + fixed_text(value as nat, width as nat));
}

/// Appends the lowest `width` decimal digits of `value` as the digits of a
/// fraction.
pub(crate) fn push_fraction(text: &mut String, value: u64, width: u32)
    ensures
        final(text)@ == old(text)@ + fraction_text(value as nat, width as nat),
{
    let mut rest: u64 = value;
    let mut left: u32 = width;
    while left > 0 && rest % 10 == 0
        invariant
            fraction_text(rest as nat, left as nat) == fraction_text(value as nat, width as nat),
        decreases left,
    {
        rest = rest / 10;
        left = left - 1;
    }
    push_fixed(text, rest, left);
}

} // verus!
