//! Numbers written in decimal digits, with zeros in front.

use vstd::prelude::*;
use vstd::string::StringExecFns;

verus! {

/// The character of a decimal digit.
pub open spec fn digit_char(digit: int) -> char {
    if digit == 0 {
        '0'
    } else if digit == 1 {
        '1'
    } else if digit == 2 {
        '2'
    } else if digit == 3 {
        '3'
    } else if digit == 4 {
        '4'
    } else if digit == 5 {
        '5'
    } else if digit == 6 {
        '6'
    } else if digit == 7 {
        '7'
    } else if digit == 8 {
        '8'
    } else {
        '9'
    }
}

/// The last `count` decimal digits of `n`, the most significant first.
pub open spec fn last_digits(n: nat, count: nat) -> Seq<char>
    decreases count,
{
    if count == 0 {
        Seq::empty()
    } else {
        last_digits(n / 10, (count - 1) as nat) + seq![digit_char((n % 10) as int)]
    }
}

/// How many decimal digits `n` has; 0 has one.
pub open spec fn digit_count(n: nat) -> nat
    decreases n,
{
    if n < 10 {
        1
    } else {
        1 + digit_count(n / 10)
    }
}

/// `n` in decimal digits, with zeros in front where it has fewer than
/// `width` digits.
pub open spec fn zero_padded(n: nat, width: nat) -> Seq<char> {
    last_digits(
        n,
        if digit_count(n) > width {
            digit_count(n)
        } else {
            width
        },
    )
}

/// A decimal digit as a string.
fn digit_str(digit: u16) -> (s: &'static str)
    requires
        digit < 10,
    ensures
        s@ == seq![digit_char(digit as int)],
{
    proof {
        reveal_strlit("0");
        reveal_strlit("1");
        reveal_strlit("2");
        reveal_strlit("3");
        reveal_strlit("4");
        reveal_strlit("5");
        reveal_strlit("6");
        reveal_strlit("7");
        reveal_strlit("8");
        reveal_strlit("9");
    }
    let s = if digit == 0 {
        "0"
    } else if digit == 1 {
        "1"
    } else if digit == 2 {
        "2"
    } else if digit == 3 {
        "3"
    } else if digit == 4 {
        "4"
    } else if digit == 5 {
        "5"
    } else if digit == 6 {
        "6"
    } else if digit == 7 {
        "7"
    } else if digit == 8 {
        "8"
    } else {
        "9"
    };
    assert(s@ =~= seq![digit_char(digit as int)]);
    s
}

/// Appends the last `count` decimal digits of `n`.
fn append_last_digits(text: &mut String, n: u16, count: usize)
    ensures
        final(text)@ == old(text)@ + last_digits(n as nat, count as nat),
    decreases count,
{
    if count > 0 {
        append_last_digits(text, n / 10, count - 1);
        text.append(digit_str(n % 10));
        assert(text@ =~= old(text)@ + last_digits(n as nat, count as nat));
    } else {
        assert(text@ =~= old(text)@ + last_digits(n as nat, 0));
    }
}

/// How many decimal digits `n` has.
fn count_digits(n: u16) -> (count: usize)
    ensures
        count == digit_count(n as nat),
        1 <= count <= 5,
{
    reveal_with_fuel(digit_count, 6);
    if n < 10 {
        1
    } else if n < 100 {
        2
    } else if n < 1000 {
        3
    } else if n < 10000 {
        4
    } else {
        5
    }
}

/// Appends `n` in decimal digits, with zeros in front where it has fewer
/// than `width` digits.
pub fn append_zero_padded(text: &mut String, n: u16, width: usize)
    ensures
        final(text)@ == old(text)@ + zero_padded(n as nat, width as nat),
{
    let digits = count_digits(n);
    let count = if digits > width { digits } else { width };
    append_last_digits(text, n, count);
}

} // verus!
