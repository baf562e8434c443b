//! Whole numbers as decimal text, in both directions.

use crate::search::{digit, is_digit_char};
use crate::text::{chars_of, push_char};
use vstd::prelude::*;
use vstd::string::*;

verus! {

/// The character of the digit `d`.
pub open spec fn digit_char(d: nat) -> char {
    (d + 48) as char
}

/// `n` in decimal, without leading zeros.
pub open spec fn decimal_text(n: nat) -> Seq<char>
    decreases n,
{
    if n < 10 {
        seq![digit_char(n)]
    } else {
        decimal_text(n / 10).push(digit_char(n % 10))
    }
}

/// The value of the decimal digits `s`.
pub open spec fn digits_value(s: Seq<char>) -> nat
    decreases s.len(),
{
    if s.len() == 0 {
        0
    } else {
        (digits_value(s.drop_last()) * 10 + (s.last() as u32 - 48)) as nat
    }
}

/// Whether every character of `s` is a decimal digit.
pub open spec fn all_digits(s: Seq<char>) -> bool {
    forall|i: int| 0 <= i < s.len() ==> is_digit_char(#[trigger] s[i])
}

/// `s` without one leading plus sign.
pub open spec fn without_plus(s: Seq<char>) -> Seq<char> {
    if s.len() > 0 && s[0] == '+' {
        s.drop_first()
    } else {
        s
    }
}

/// The number that `s` denotes: at least one digit after an optional plus
/// sign, and a value of at most `max`.
pub open spec fn number_of(s: Seq<char>, max: nat) -> Option<nat> {
    let digits = without_plus(s);
    if digits.len() > 0 && all_digits(digits) && digits_value(digits) <= max {
        Some(digits_value(digits))
    } else {
        None
    }
}

/// `n` in decimal.
pub fn decimal(n: u64) -> (r: String)
    ensures
        r@ == decimal_text(n as nat),
    decreases n,
{
    let d: u8 = (n % 10) as u8;
    let c: char = (d + 48) as char;
    assert(c == digit_char((n % 10) as nat));
    let mut result = if n < 10 {
        String::new()
    } else {
        decimal(n / 10)
    };
    push_char(&mut result, c);
    assert(result@ =~= decimal_text(n as nat));
    result
}

/// `n` in decimal.
pub fn count_text(n: usize) -> (r: String)
    ensures
        r@ == decimal_text(n as nat),
{
    decimal(n as u64)
}

proof fn lemma_digits_value_grows(s: Seq<char>, k: int)
    requires
        0 <= k <= s.len(),
        all_digits(s),
    ensures
        digits_value(s.take(k)) <= digits_value(s),
    decreases s.len() - k,
{
    if k < s.len() {
        lemma_digits_value_grows(s, k + 1);
        assert(s.take(k + 1).drop_last() =~= s.take(k));
        assert(is_digit_char(s[k]));
    } else {
        assert(s.take(k) =~= s);
    }
}

/// The number that `s` denotes, where it is at most `max`.
pub fn parse_number(s: &str, max: u64) -> (r: Option<u64>)
    ensures
        r matches Some(n) ==> number_of(s@, max as nat) == Some(n as nat),
        r is None ==> number_of(s@, max as nat) is None,
{
    let chars = chars_of(s);
    let ghost digits = without_plus(s@);
    let mut i: usize = 0;
    if chars.len() > 0 && chars[0] == '+' {
        i = 1;
    }
    let from: usize = i;
    assert(digits =~= chars@.skip(from as int));
    if i == chars.len() {
        return None;
    }
    let mut value: u64 = 0;
    assert(digits.take(0) =~= Seq::<char>::empty());
    while i < chars.len()
        invariant
            chars@ == s@,
            from <= i <= chars@.len(),
            digits == chars@.skip(from as int),
            digits == without_plus(s@),
            digits.len() > 0,
            forall|j: int| 0 <= j < i - from ==> is_digit_char(#[trigger] digits[j]),
            value == digits_value(digits.take(i - from)),
            value <= max,
        decreases chars@.len() - i,
    {
        let c = chars[i];
        assert(c == digits[i - from]);
        if !digit(c) {
            return None;
        }
        let d: u64 = (c as u32 - 48) as u64;
        let wide: u128 = value as u128 * 10 + d as u128;
        proof {
            assert(digits.take(i - from + 1).drop_last() =~= digits.take(i - from));
            assert(wide == digits_value(digits.take(i - from + 1)));
        }
        if wide > max as u128 {
            proof {
                if all_digits(digits) {
                    lemma_digits_value_grows(digits, i - from + 1);
                }
            }
            return None;
        }
        value = wide as u64;
        i += 1;
    }
    assert(digits.take(i - from) =~= digits);
    Some(value)
}

/// Reading a number's decimal text gives the number back.
pub proof fn lemma_decimal_round_trip(n: nat, max: nat)
    requires
        n <= max,
    ensures
        number_of(decimal_text(n), max) == Some(n),
{
    lemma_decimal_digits(n);
    assert(is_digit_char(decimal_text(n)[0]));
    assert(without_plus(decimal_text(n)) == decimal_text(n));
}

pub proof fn lemma_decimal_digits(n: nat)
    ensures
        decimal_text(n).len() > 0,
        all_digits(decimal_text(n)),
        digits_value(decimal_text(n)) == n,
    decreases n,
{
    if n < 10 {
        assert(decimal_text(n).drop_last() =~= Seq::<char>::empty());
        assert(digits_value(decimal_text(n).drop_last()) == 0);
    } else {
        lemma_decimal_digits(n / 10);
        assert(decimal_text(n).drop_last() =~= decimal_text(n / 10));
    }
}

/// `n + delta`, kept between zero and the largest `usize`.
pub open spec fn shifted(n: int, delta: int) -> int {
    if n + delta < 0 {
        0
    } else if n + delta > usize::MAX {
        usize::MAX as int
    } else {
        n + delta
    }
}

/// `n + delta`, kept between zero and the largest `usize`.
pub fn add_signed(n: usize, delta: isize) -> (r: usize)
    ensures
        r == shifted(n as int, delta as int),
{
    let sum: i128 = n as i128 + delta as i128;
    if sum < 0 {
        0
    } else if sum > usize::MAX as i128 {
        usize::MAX
    } else {
        sum as usize
    }
}

/// The smaller of the two.
pub fn smaller(a: usize, b: usize) -> (r: usize)
    ensures
        r == if a <= b {
            a
        } else {
            b
        },
{
    if a <= b {
        a
    } else {
        b
    }
}

/// The larger of the two.
pub fn larger(a: usize, b: usize) -> (r: usize)
    ensures
        r == if a >= b {
            a
        } else {
            b
        },
{
    if a >= b {
        a
    } else {
        b
    }
}

} // verus!
