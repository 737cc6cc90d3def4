//! Decimal numerals.
//!
//! [`decimal`] says what the numeral of a natural number is, and
//! [`push_decimal`] writes it. The lemmas of this module hold the definition
//! to what is expected of a numeral: it is made of digits, has no leading
//! zero, and denotes the number it was made from.

use vstd::prelude::*;

verus! {

/// The ten digits, each at the index that is its value.
pub open spec fn digits() -> Seq<char> {
    seq!['0', '1', '2', '3', '4', '5', '6', '7', '8', '9']
}

/// The character that stands for the digit `d`.
pub open spec fn digit(d: nat) -> char
    recommends
        d < 10,
{
    digits()[d as int]
}

/// The decimal numeral of `n`: its digits from the most significant to the
/// least significant one, without sign or separators and without a leading
/// zero, so that zero is written `0`.
pub open spec fn decimal(n: nat) -> Seq<char>
    decreases n,
{
    if n < 10 {
        seq![digit(n)]
    } else {
        decimal(n / 10).push(digit(n % 10))
    }
}

/// Whether `c` is one of the ten digits.
pub open spec fn is_digit(c: char) -> bool {
    '0' <= c <= '9'
}

/// The value of the digit `c`.
pub open spec fn digit_value(c: char) -> nat
    recommends
        is_digit(c),
{
    (c as int - '0' as int) as nat
}

/// The number that the numeral `s` denotes, read as digits from the most
/// significant to the least significant one. The empty numeral denotes zero.
pub open spec fn numeral_value(s: Seq<char>) -> nat
    decreases s.len(),
{
    if s.len() == 0 {
        0
    } else {
        numeral_value(s.drop_last()) * 10 + digit_value(s.last())
    }
}

/// A digit's character is a digit, and its value is the digit.
pub proof fn lemma_digit(d: nat)
    requires
        d < 10,
    ensures
        is_digit(digit(d)),
        digit_value(digit(d)) == d,
{
}

/// A numeral is never empty and holds digits only: no sign, no separator.
pub proof fn lemma_decimal_digits(n: nat)
    ensures
        decimal(n).len() >= 1,
        forall|i: int| 0 <= i < decimal(n).len() ==> is_digit(#[trigger] decimal(n)[i]),
    decreases n,
{
    if n < 10 {
        lemma_digit(n);
    } else {
        lemma_decimal_digits(n / 10);
        lemma_digit(n % 10);
    }
}

/// A numeral begins with the digit zero only where it is the numeral of zero,
/// which is `0`.
pub proof fn lemma_decimal_no_leading_zero(n: nat)
    ensures
        n == 0 ==> decimal(n) == seq!['0'],
        n > 0 ==> decimal(n)[0] != '0',
    decreases n,
{
    if n < 10 {
        lemma_digit(n);
    } else {
        lemma_decimal_digits(n / 10);
        lemma_decimal_no_leading_zero(n / 10);
    }
}

/// A numeral denotes the number it was made from.
pub proof fn lemma_decimal_value(n: nat)
    ensures
        numeral_value(decimal(n)) == n,
    decreases n,
{
    let s = decimal(n);
    if n < 10 {
        lemma_digit(n);
        assert(s.drop_last() =~= Seq::<char>::empty());
        assert(numeral_value(s.drop_last()) == 0);
    } else {
        lemma_decimal_value(n / 10);
        lemma_digit(n % 10);
        assert(s.drop_last() =~= decimal(n / 10));
        assert(s.last() == digit(n % 10));
    }
}

/// Two numbers with the same numeral are the same number.
pub proof fn lemma_decimal_injective(a: nat, b: nat)
    requires
        decimal(a) == decimal(b),
    ensures
        a == b,
{
    lemma_decimal_value(a);
    lemma_decimal_value(b);
}

/// The one-character string that holds the digit `d`.
fn digit_str(d: u8) -> (s: &'static str)
    requires
        d < 10,
    ensures
        s@ == seq![digit(d as nat)],
{
    let all: &'static str = "0123456789";
    proof {
        reveal_strlit("0123456789");
        assert(all@ =~= digits());
    }
    let from: usize = d as usize;
    all.substring_ascii(from, from + 1)
}

/// Appends the decimal numeral of `n` to `out`.
pub fn push_decimal(out: &mut String, n: u64)
    ensures
        final(out)@ == old(out)@ + decimal(n as nat),
    decreases n,
{
    if n >= 10 {
        push_decimal(out, n / 10);
    }
    out.append(digit_str((n % 10) as u8));
}

} // verus!
