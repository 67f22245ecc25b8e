//! Numerals are read back as they were written.
use crate::numerals;
use crate::text;
use vstd::prelude::*;

verus! {

proof fn lemma_decimal_digits(n: nat)
    ensures
        text::decimal(n).len() > 0,
        forall|i: int|
            0 <= i < text::decimal(n).len() ==> numerals::is_digit(#[trigger] text::decimal(n)[i]),
        numerals::digits_value(text::decimal(n)) == n,
    decreases n,
{
    let digits = text::decimal(n);
    if n < 10 {
        assert(numerals::digits_value(digits.drop_last()) == 0);
    } else {
        lemma_decimal_digits(n / 10);
        assert(digits.drop_last() =~= text::decimal(n / 10));
    }
}

/// Reading the numeral of a number gives the number back.
pub proof fn law_numeral_round_trip(n: nat)
    ensures
        numerals::unsigned_value(text::decimal(n)) == Some(n),
{
    lemma_decimal_digits(n);
}

} // verus!
