//! Decimal notation of natural numbers.

use vstd::prelude::*;

verus! {

/// The character of the digit `d`.
pub open spec fn digit(d: nat) -> char
    recommends
        d < 10,
{
    ((48 + d) as u8) as char
}

/// The decimal notation of `n`, most significant digit first, without
/// leading zeros (and `0` for zero).
pub open spec fn decimal_digits(n: nat) -> Seq<char>
    decreases n,
{
    if n < 10 {
        seq![digit(n)]
    } else {
        decimal_digits(n / 10).push(digit(n % 10))
    }
}

/// The decimal notation of `n`, with a leading zero where it has a single
/// digit.
pub open spec fn two_digit_decimal(n: nat) -> Seq<char> {
    if n < 10 {
        seq![digit(0), digit(n)]
    } else {
        decimal_digits(n)
    }
}

/// `String::push` appends the given character to the end of the string.
pub assume_specification[ String::push ](text: &mut String, ch: char)
    ensures
        final(text)@ == old(text)@.push(ch),
;

/// Appends the decimal notation of `n` to the text.
pub fn push_decimal(text: &mut String, n: u64)
    ensures
        final(text)@ == old(text)@ + decimal_digits(n as nat),
{
    let mut digits: Vec<char> = Vec::new();
    let mut rest: u64 = n;
    while rest >= 10
        invariant
            decimal_digits(n as nat) == decimal_digits(rest as nat) + digits@,
        decreases rest,
    {
        let low: u8 = (rest % 10) as u8;
        let ghost before = digits@;
        proof {
            assert(decimal_digits(rest as nat) == decimal_digits((rest / 10) as nat).push(
                digit((rest % 10) as nat),
            ));
            assert(decimal_digits((rest / 10) as nat).push(digit((rest % 10) as nat)) + before
                =~= decimal_digits((rest / 10) as nat) + (seq![digit((rest % 10) as nat)]
                + before));
        }
        digits.insert(0, (48 + low) as char);
        assert(digits@ =~= seq![digit((rest % 10) as nat)] + before);
        rest = rest / 10;
    }
    digits.insert(0, (48 + (rest as u8)) as char);
    assert(digits@ =~= decimal_digits(n as nat));
    let mut i: usize = 0;
    while i < digits.len()
        invariant
            i <= digits.len(),
            text@ == old(text)@ + digits@.subrange(0, i as int),
        decreases digits.len() - i,
    {
        text.push(digits[i]);
        i += 1;
        assert(text@ =~= old(text)@ + digits@.subrange(0, i as int));
    }
    assert(digits@.subrange(0, i as int) =~= digits@);
}

} // verus!
