//! Reading unsigned numbers from text.
use vstd::prelude::*;

verus! {

/// Whether `c` is a decimal digit.
pub open spec fn is_digit(c: char) -> bool {
    '0' <= c <= '9'
}

/// The number that a string of digits stands for; zero if there are none.
pub open spec fn digits_value(digits: Seq<char>) -> nat
    decreases digits.len(),
{
    if digits.len() == 0 {
        0
    } else {
        digits_value(digits.drop_last()) * 10 + (digits.last() as nat - 48) as nat
    }
}

/// A text without its leading plus sign, if it has one.
pub open spec fn without_plus(text: Seq<char>) -> Seq<char> {
    if text.len() > 0 && text[0] == '+' {
        text.drop_first()
    } else {
        text
    }
}

/// The number that `text` stands for: one or more digits, after a plus sign or not. Any other
/// text stands for none.
pub open spec fn unsigned_value(text: Seq<char>) -> Option<nat> {
    let digits = without_plus(text);
    if digits.len() > 0 && (forall|i: int| 0 <= i < digits.len() ==> is_digit(#[trigger] digits[i])) {
        Some(digits_value(digits))
    } else {
        None
    }
}

proof fn lemma_prefix_value(digits: Seq<char>, i: int)
    requires
        0 <= i <= digits.len(),
        forall|k: int| 0 <= k < digits.len() ==> is_digit(#[trigger] digits[k]),
    ensures
        digits_value(digits.take(i)) <= digits_value(digits),
    decreases digits.len() - i,
{
    if i < digits.len() {
        assert(digits.take(i + 1).drop_last() =~= digits.take(i));
        lemma_prefix_value(digits, i + 1);
    } else {
        assert(digits.take(i) =~= digits);
    }
}

/// Reads an unsigned number. The answer is `None` if the text stands for no number, or for one
/// that does not fit.
pub fn parse_unsigned(text: &str) -> (number: Option<u64>)
    ensures
        match number {
            Some(n) => unsigned_value(text@) == Some(n as nat),
            None => unsigned_value(text@) matches Some(n) ==> n > u64::MAX,
        },
{
    let length: usize = text.unicode_len();
    let start: usize = if length > 0 && text.get_char(0) == '+' {
        1
    } else {
        0
    };
    if start >= length {
        return None;
    }
    let ghost digits = without_plus(text@);
    let mut number: u64 = 0;
    let mut index: usize = start;
    while index < length
        invariant
            digits == without_plus(text@),
            length == text@.len(),
            start <= index <= length,
            start == 0 || start == 1,
            digits == text@.skip(start as int),
            forall|k: int| 0 <= k < index - start ==> is_digit(#[trigger] digits[k]),
            number == digits_value(digits.take(index - start)),
        decreases length - index,
    {
        let c = text.get_char(index);
        assert(c == digits[index - start]);
        if c < '0' || c > '9' {
            return None;
        }
        let digit: u64 = c as u64 - 48;
        assert(digits.take(index + 1 - start).drop_last() =~= digits.take(index - start));
        if number > (u64::MAX - digit) / 10 {
            proof {
                if unsigned_value(text@) is Some {
                    lemma_prefix_value(digits, index + 1 - start);
                }
            }
            return None;
        }
        number = number * 10 + digit;
        index = index + 1;
    }
    assert(digits.take(index - start) =~= digits);
    Some(number)
}

} // verus!
