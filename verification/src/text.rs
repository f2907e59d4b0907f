use vstd::prelude::*;

verus! {

/// `String::push` appends one character to the end of the string and leaves
/// the characters before it as they were.
pub assume_specification[ String::push ](s: &mut String, c: char)
    ensures
        final(s)@ == old(s)@.push(c),
;

/// The character that writes the digit `d`.
pub open spec fn digit_char(d: nat) -> char
    recommends
        d < 10,
{
    if d == 0 {
        '0'
    } else if d == 1 {
        '1'
    } else if d == 2 {
        '2'
    } else if d == 3 {
        '3'
    } else if d == 4 {
        '4'
    } else if d == 5 {
        '5'
    } else if d == 6 {
        '6'
    } else if d == 7 {
        '7'
    } else if d == 8 {
        '8'
    } else {
        '9'
    }
}

/// The decimal numeral of `n`: no sign, no leading zero, `"0"` for zero.
pub open spec fn decimal(n: nat) -> Seq<char>
    decreases n,
{
    if n < 10 {
        seq![digit_char(n)]
    } else {
        decimal(n / 10).push(digit_char(n % 10))
    }
}

/// The character that writes the last decimal digit of `d`.
pub fn digit(d: u8) -> (c: char)
    ensures
        c == digit_char((d % 10) as nat),
{
    let last: u8 = d % 10;
    if last == 0 {
        '0'
    } else if last == 1 {
        '1'
    } else if last == 2 {
        '2'
    } else if last == 3 {
        '3'
    } else if last == 4 {
        '4'
    } else if last == 5 {
        '5'
    } else if last == 6 {
        '6'
    } else if last == 7 {
        '7'
    } else if last == 8 {
        '8'
    } else {
        '9'
    }
}

/// Appends the decimal numeral of `n` to `out`.
pub fn push_decimal(out: &mut String, n: u128)
    ensures
        final(out)@ == old(out)@ + decimal(n as nat),
    decreases n,
{
    if n >= 10 {
        push_decimal(out, n / 10);
    }
    let last: u128 = n % 10;
    out.push(digit(last as u8));
    assert(final(out)@ =~= old(out)@ + decimal(n as nat));
}

} // verus!
