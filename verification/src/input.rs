//! Decimal text input, as the configuration layer accepts it: a numeric
//! field is parsed as an unsigned decimal number (with at most one leading
//! plus sign), a malformed field falls back to zero, and the result is
//! capped at the field's bound.

use vstd::prelude::*;
use vstd::arithmetic::div_mod::lemma_fundamental_div_mod;
use crate::config::cap_u64;

verus! {

/// A character that may appear in a decimal numeral.
pub open spec fn is_decimal_digit(c: char) -> bool {
    '0' <= c && c <= '9'
}

/// The numeric value of one digit.
pub open spec fn digit_value(c: char) -> int {
    c as int - '0' as int
}

/// Every character of the string is a digit.
pub open spec fn all_decimal_digits(s: Seq<char>) -> bool {
    forall|i: int| 0 <= i < s.len() ==> is_decimal_digit(#[trigger] s[i])
}

/// The value of a digit string read most-significant first.
pub open spec fn decimal_value(s: Seq<char>) -> int
    decreases s.len(),
{
    if s.len() == 0 {
        0
    } else {
        decimal_value(s.drop_last()) * 10 + digit_value(s.last())
    }
}

/// The digits of a numeral: one leading plus sign is accepted and
/// discarded, as the standard unsigned parsers accept it.
pub open spec fn numeral_digits(s: Seq<char>) -> Seq<char> {
    if s.len() > 0 && s[0] == '+' {
        s.drop_first()
    } else {
        s
    }
}

/// What parsing yields: the numeric value of an optionally plus-signed,
/// otherwise all-digit, non-empty string whose value fits in 64 bits, and
/// nothing otherwise.
pub open spec fn parsed_u64(s: Seq<char>) -> Option<u64> {
    let digits = numeral_digits(s);
    if digits.len() > 0 && all_decimal_digits(digits) && decimal_value(digits) <= u64::MAX {
        Some(decimal_value(digits) as u64)
    } else {
        None
    }
}

proof fn lemma_decimal_value_nonneg(s: Seq<char>)
    requires
        all_decimal_digits(s),
    ensures
        decimal_value(s) >= 0,
    decreases s.len(),
{
    if s.len() > 0 {
        assert(all_decimal_digits(s.drop_last()));
        lemma_decimal_value_nonneg(s.drop_last());
    }
}

/// Appending digits never shrinks the value of a digit string.
proof fn lemma_decimal_value_prefix_le(s: Seq<char>, j: int)
    requires
        all_decimal_digits(s),
        0 <= j <= s.len(),
    ensures
        decimal_value(s.subrange(0, j)) <= decimal_value(s),
    decreases s.len() - j,
{
    if j == s.len() {
        assert(s.subrange(0, j) =~= s);
    } else {
        let shorter = s.subrange(0, j);
        let longer = s.subrange(0, j + 1);
        assert(longer.drop_last() =~= shorter);
        assert(all_decimal_digits(shorter)) by {
            assert(forall|i: int| 0 <= i < j ==> shorter[i] == s[i]);
        }
        lemma_decimal_value_nonneg(shorter);
        assert(decimal_value(longer) == decimal_value(shorter) * 10 + digit_value(s[j]));
        assert(decimal_value(shorter) * 10 >= decimal_value(shorter)) by (nonlinear_arith)
            requires
                decimal_value(shorter) >= 0,
        ;
        lemma_decimal_value_prefix_le(s, j + 1);
    }
}

/// Parse an unsigned decimal numeral. Returns the value exactly when the
/// string is a non-empty run of digits — after at most one leading plus
/// sign — whose value fits in 64 bits.
pub fn parse_u64(s: &str) -> (r: Option<u64>)
    ensures
        r == parsed_u64(s@),
{
    let len = s.unicode_len();
    if len == 0 {
        return None;
    }
    let start: usize = if s.get_char(0) == '+' {
        1
    } else {
        0
    };
    if len == start {
        return None;
    }
    let ghost digits = numeral_digits(s@);
    proof {
        assert(digits.len() == len - start);
        assert(forall|j: int| 0 <= j < digits.len() ==> digits[j] == s@[j + start]);
    }
    let mut acc: u64 = 0;
    let mut i: usize = start;
    while i < len
        invariant
            start <= i <= len,
            start < len,
            len == s@.len(),
            digits == numeral_digits(s@),
            digits.len() == len - start,
            forall|j: int| 0 <= j < digits.len() ==> digits[j] == s@[j + start],
            all_decimal_digits(digits.subrange(0, i - start)),
            acc == decimal_value(digits.subrange(0, i - start)),
        decreases len - i,
    {
        let c = s.get_char(i);
        if c < '0' || '9' < c {
            proof {
                assert(digits[i - start] == c);
                assert(!all_decimal_digits(digits));
            }
            return None;
        }
        let d: u64 = (c as u32 - '0' as u32) as u64;
        assert(d == digit_value(c) && d <= 9);
        if acc > (u64::MAX - d) / 10 {
            proof {
                let here = digits.subrange(0, i - start + 1);
                assert(here.drop_last() =~= digits.subrange(0, i - start));
                assert(here.last() == digits[i - start] && digits[i - start] == c);
                lemma_fundamental_div_mod((u64::MAX - d) as int, 10);
                assert(acc * 10 >= ((u64::MAX - d) / 10 + 1) * 10) by (nonlinear_arith)
                    requires
                        acc >= (u64::MAX - d) / 10 + 1,
                ;
                assert(decimal_value(here) > u64::MAX);
                if all_decimal_digits(digits) {
                    lemma_decimal_value_prefix_le(digits, i - start + 1);
                }
            }
            return None;
        }
        proof {
            let prefix = digits.subrange(0, i - start);
            lemma_fundamental_div_mod((u64::MAX - d) as int, 10);
            assert(acc * 10 <= (u64::MAX - d) / 10 * 10) by (nonlinear_arith)
                requires
                    0 <= acc <= (u64::MAX - d) / 10,
            ;
            let here = digits.subrange(0, i - start + 1);
            assert(here.drop_last() =~= prefix);
            assert(here.last() == digits[i - start] && digits[i - start] == c);
        }
        acc = acc * 10 + d;
        i = i + 1;
    }
    proof {
        assert(digits.subrange(0, (len - start) as int) =~= digits);
    }
    Some(acc)
}

/// A numeric input field as the configuration layer reads it: the parsed
/// value capped at `max`, and zero for text that is not a numeral.
pub fn numeric_field_value(s: &str, max: u64) -> (v: u64)
    ensures
        v == (match parsed_u64(s@) {
            Some(n) => cap_u64(n, max),
            None => 0u64,
        }),
{
    match parse_u64(s) {
        Some(n) => if n > max {
            max
        } else {
            n
        },
        None => 0,
    }
}

} // verus!
