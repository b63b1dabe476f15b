//! Reading and writing the decimal form of a playlist position.

use vstd::prelude::*;
use vstd::slice::slice_subrange;
use crate::text::{first_match, is_digit, lemma_first_match, lemma_first_match_is, CharClass};

verus! {

/// Why a text is not a number.
#[derive(Clone, Copy, Debug, PartialEq, Eq, Structural)]
pub enum NumberError {
    /// The text is empty.
    Empty,
    /// The text holds something other than digits behind an optional `+`,
    /// or no digit at all.
    InvalidDigit,
    /// The digits stand for more than a `usize` holds.
    Overflow,
}

/// The number that the digit `c` stands for.
pub open spec fn digit_value(c: char) -> nat {
    (c as u32 - '0' as u32) as nat
}

/// The number that a run of digits stands for.
pub open spec fn digits_value(s: Seq<char>) -> nat
    decreases s.len(),
{
    if s.len() == 0 {
        0
    } else {
        digits_value(s.drop_last()) * 10 + digit_value(s.last())
    }
}

/// `s` without the `+` that it may begin with.
pub open spec fn unsigned_part(s: Seq<char>) -> Seq<char> {
    if s.len() > 0 && s[0] == '+' {
        s.drop_first()
    } else {
        s
    }
}

/// The number that `s` stands for: an optional `+` and then digits, at
/// least one. Reading from the left, the first character that is no digit
/// and the first digit with which the number outgrows `usize` compete: the
/// one that comes first names the error.
pub open spec fn number_of(s: Seq<char>) -> Result<nat, NumberError> {
    let digits = unsigned_part(s);
    let run = first_match(digits, CharClass::NonDigit) as int;
    if s.len() == 0 {
        Err(NumberError::Empty)
    } else if digits.len() == 0 {
        Err(NumberError::InvalidDigit)
    } else if digits_value(digits.take(run)) > usize::MAX {
        Err(NumberError::Overflow)
    } else if run < digits.len() {
        Err(NumberError::InvalidDigit)
    } else {
        Ok(digits_value(digits))
    }
}

/// The digit that stands for `d`, which is below ten.
pub open spec fn digit_char(d: nat) -> char {
    (('0' as u8 + d) as u8) as char
}

/// The decimal form of `n`, without leading zeros.
pub open spec fn decimal(n: nat) -> Seq<char>
    decreases n,
{
    if n < 10 {
        seq![digit_char(n)]
    } else {
        decimal(n / 10).push(digit_char(n % 10))
    }
}

/// A longer prefix of a text stands for no smaller a number.
pub proof fn lemma_digits_value_grows(s: Seq<char>, short: int, long: int)
    requires
        0 <= short <= long <= s.len(),
    ensures
        digits_value(s.take(short)) <= digits_value(s.take(long)),
    decreases long - short,
{
    if short < long {
        lemma_digits_value_grows(s, short, long - 1);
        assert(s.take(long).drop_last() == s.take(long - 1));
    }
}

/// Reads the number that `s` stands for.
pub fn parse_number(s: &[char]) -> (r: Result<usize, NumberError>)
    ensures
        match r {
            Ok(n) => number_of(s@) == Ok::<nat, NumberError>(n as nat),
            Err(e) => number_of(s@) == Err::<nat, NumberError>(e),
        },
{
    if s.len() == 0 {
        return Err(NumberError::Empty);
    }
    let digits: &[char] = if s[0] == '+' {
        slice_subrange(s, 1, s.len())
    } else {
        s
    };
    assert(digits@ == unsigned_part(s@));
    if digits.len() == 0 {
        return Err(NumberError::InvalidDigit);
    }
    let ghost run = first_match(digits@, CharClass::NonDigit) as int;
    let mut value: usize = 0;
    let mut i: usize = 0;
    while i < digits.len()
        invariant
            i <= digits.len(),
            s@.len() > 0,
            digits@.len() > 0,
            digits@ == unsigned_part(s@),
            run == first_match(digits@, CharClass::NonDigit),
            forall|j: int| 0 <= j < i ==> is_digit(#[trigger] digits@[j]),
            value == digits_value(digits@.take(i as int)),
        decreases digits.len() - i,
    {
        let c = digits[i];
        if !is_digit(c) {
            proof {
                lemma_first_match_is(digits@, CharClass::NonDigit, i as int);
            }
            return Err(NumberError::InvalidDigit);
        }
        let d: usize = (c as u32 - '0' as u32) as usize;
        proof {
            assert(digits@.take(i + 1).drop_last() == digits@.take(i as int));
            assert(digits_value(digits@.take(i + 1)) == value * 10 + d);
            lemma_first_match(digits@, CharClass::NonDigit);
            assert(i < run) by {
                if run <= i {
                    assert(is_digit(digits@[run]));
                }
            }
            lemma_digits_value_grows(digits@, i + 1, run);
        }
        let next = match value.checked_mul(10) {
            Some(tens) => tens.checked_add(d),
            None => None,
        };
        match next {
            Some(n) => {
                value = n;
            },
            None => {
                return Err(NumberError::Overflow);
            },
        }
        i = i + 1;
    }
    proof {
        lemma_first_match_is(digits@, CharClass::NonDigit, digits.len() as int);
        assert(digits@.take(digits.len() as int) == digits@);
    }
    Ok(value)
}

/// Appends the decimal form of `n` to `out`.
pub fn push_decimal(n: usize, out: &mut Vec<char>)
    ensures
        final(out)@ == old(out)@ + decimal(n as nat),
    decreases n,
{
    if n >= 10 {
        push_decimal(n / 10, out);
    }
    let d: u8 = (n % 10) as u8;
    out.push((48u8 + d) as char);
}

} // verus!
