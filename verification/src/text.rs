//! Numbers as text, for the diagnostics.

use vstd::prelude::*;

verus! {

/// `String::push` of std: appends the character to the end of the string.
pub assume_specification[ String::push ](text: &mut String, ch: char)
    ensures
        final(text)@ == old(text)@.push(ch),
;

/// The sixteen digits, with the letters in upper or in lower case.
pub open spec fn digits(upper: bool) -> Seq<char> {
    if upper {
        seq!['0', '1', '2', '3', '4', '5', '6', '7', '8', '9', 'A', 'B', 'C', 'D', 'E', 'F']
    } else {
        seq!['0', '1', '2', '3', '4', '5', '6', '7', '8', '9', 'a', 'b', 'c', 'd', 'e', 'f']
    }
}

/// The decimal digits of `value`, most significant first, without leading
/// zeros; zero is the one digit `0`.
pub open spec fn decimal_digits(value: nat) -> Seq<char>
    decreases value,
{
    if value < 10 {
        seq![digits(false)[value as int]]
    } else {
        decimal_digits(value / 10).push(digits(false)[(value % 10) as int])
    }
}

/// The hexadecimal digits of `value`, most significant first, without
/// leading zeros; zero is the one digit `0`.
pub open spec fn hex_digits(value: nat, upper: bool) -> Seq<char>
    decreases value,
{
    if value < 16 {
        seq![digits(upper)[value as int]]
    } else {
        hex_digits(value / 16, upper).push(digits(upper)[(value % 16) as int])
    }
}

/// `value` in decimal.
pub open spec fn decimal_text(value: u64) -> Seq<char> {
    decimal_digits(value as nat)
}

/// `value` in hexadecimal after the prefix `0x`.
pub open spec fn hex_text(value: u64, upper: bool) -> Seq<char> {
    seq!['0', 'x'] + hex_digits(value as nat, upper)
}

/// The digits of `value` in base sixteen or ten.
spec fn number_digits(value: nat, hex: bool, upper: bool) -> Seq<char> {
    if hex {
        hex_digits(value, upper)
    } else {
        decimal_digits(value)
    }
}

/// The digit that stands for `value`.
fn digit(value: u8, upper: bool) -> (ch: char)
    requires
        value < 16,
    ensures
        ch == digits(upper)[value as int],
{
    if value < 10 {
        (48u8 + value) as char
    } else if upper {
        (65u8 + (value - 10)) as char
    } else {
        (97u8 + (value - 10)) as char
    }
}

/// Appends the digits of `value`, in base sixteen or ten, to `out`.
fn push_number(out: &mut String, value: u64, hex: bool, upper: bool)
    requires
        !hex ==> !upper,
    ensures
        final(out)@ == old(out)@ + number_digits(value as nat, hex, upper),
{
    let mut reversed: Vec<u8> = Vec::new();
    let mut rest = value;
    let ghost mut text = Seq::<char>::empty();
    loop
        invariant_except_break
            !hex ==> !upper,
            reversed@.len() == text.len(),
            forall|i: int|
                0 <= i < text.len() ==> reversed@[i] < 16 && text[text.len() - 1 - i] == digits(
                    upper,
                )[reversed@[i] as int],
            number_digits(value as nat, hex, upper) == number_digits(rest as nat, hex, upper)
                + text,
        ensures
            reversed@.len() == text.len(),
            forall|i: int|
                0 <= i < text.len() ==> reversed@[i] < 16 && text[text.len() - 1 - i] == digits(
                    upper,
                )[reversed@[i] as int],
            number_digits(value as nat, hex, upper) == text,
        decreases rest,
    {
        let low = if hex {
            (rest % 16) as u8
        } else {
            (rest % 10) as u8
        };
        let high = if hex {
            rest / 16
        } else {
            rest / 10
        };
        reversed.push(low);
        proof {
            let ghost longer = seq![digits(upper)[low as int]] + text;
            assert(number_digits(rest as nat, hex, upper) + text == if high == 0 {
                longer
            } else {
                number_digits(high as nat, hex, upper) + longer
            });
            text = longer;
        }
        if high == 0 {
            break ;
        }
        rest = high;
    }
    let mut left = reversed.len();
    while left > 0
        invariant
            left <= reversed@.len(),
            reversed@.len() == text.len(),
            forall|i: int|
                0 <= i < text.len() ==> reversed@[i] < 16 && text[text.len() - 1 - i] == digits(
                    upper,
                )[reversed@[i] as int],
            out@ == old(out)@ + text.subrange(0, text.len() - left),
        decreases left,
    {
        left -= 1;
        out.push(digit(reversed[left], upper));
    }
    assert(text.subrange(0, text.len() as int) == text);
}

/// Appends `value` in decimal to `out`.
pub fn push_decimal(out: &mut String, value: u64)
    ensures
        final(out)@ == old(out)@ + decimal_text(value),
{
    push_number(out, value, false, false);
}

/// Appends `value` in hexadecimal, after the prefix `0x`, to `out`.
pub fn push_hex(out: &mut String, value: u64, upper: bool)
    ensures
        final(out)@ == old(out)@ + hex_text(value, upper),
{
    out.push('0');
    out.push('x');
    push_number(out, value, true, upper);
    assert(old(out)@.push('0').push('x') + hex_digits(value as nat, upper) == old(out)@
        + hex_text(value, upper));
}

} // verus!
