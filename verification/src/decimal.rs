//! Whole numbers in base ten, read from text and written as text.

use vstd::prelude::*;
use vstd::string::StringExecFns;

use crate::text::chars_of;

verus! {

/// Whether `c` is one of the ten ASCII digits.
pub open spec fn is_digit(c: char) -> bool {
    48 <= c as int <= 57
}

/// The digit that `c` stands for.
pub open spec fn digit_value(c: char) -> nat
    recommends
        is_digit(c),
{
    (c as int - 48) as nat
}

/// Whether `s` is a non-empty run of ASCII digits.
pub open spec fn is_decimal(s: Seq<char>) -> bool {
    s.len() > 0 && forall|i: int| 0 <= i < s.len() ==> is_digit(#[trigger] s[i])
}

/// The number that the digits of `s` write in base ten, leading zeros allowed.
pub open spec fn decimal_value(s: Seq<char>) -> nat
    decreases s.len(),
{
    if s.len() == 0 {
        0
    } else {
        10 * decimal_value(s.drop_last()) + digit_value(s.last())
    }
}

/// `s` without one leading `+`.
pub open spec fn without_plus(s: Seq<char>) -> Seq<char> {
    if s.len() > 0 && s[0] == '+' {
        s.skip(1)
    } else {
        s
    }
}

/// What `s` reads as an unsigned 64-bit number: an optional `+`, then digits
/// only, and a value that fits.
pub open spec fn parsed_u64(s: Seq<char>) -> Option<u64> {
    let digits = without_plus(s);
    if is_decimal(digits) && decimal_value(digits) <= u64::MAX {
        Some(decimal_value(digits) as u64)
    } else {
        None
    }
}

/// What `s` reads as a signed 32-bit number: an optional `+` or `-`, then
/// digits only, and a value that fits.
pub open spec fn parsed_i32(s: Seq<char>) -> Option<i32> {
    if s.len() > 0 && s[0] == '-' {
        let digits = s.skip(1);
        if is_decimal(digits) && decimal_value(digits) <= 0x8000_0000 {
            Some((-(decimal_value(digits) as int)) as i32)
        } else {
            None
        }
    } else {
        let digits = without_plus(s);
        if is_decimal(digits) && decimal_value(digits) <= i32::MAX {
            Some(decimal_value(digits) as i32)
        } else {
            None
        }
    }
}

/// The character that writes the digit `d`.
pub open spec fn digit_char(d: nat) -> char
    recommends
        d < 10,
{
    if d == 0 {
        '0'
    } else if d == 1 {
        '1'
    } else if d == 2 {
        '2'
    } else if d == 3 {
        '3'
    } else if d == 4 {
        '4'
    } else if d == 5 {
        '5'
    } else if d == 6 {
        '6'
    } else if d == 7 {
        '7'
    } else if d == 8 {
        '8'
    } else {
        '9'
    }
}

/// `n` written in base ten without leading zeros.
pub open spec fn decimal_digits(n: nat) -> Seq<char>
    decreases n,
{
    if n < 10 {
        seq![digit_char(n)]
    } else {
        decimal_digits(n / 10).push(digit_char(n % 10))
    }
}

/// `n` written in base ten, with a `-` in front when it is negative.
pub open spec fn signed_decimal_digits(n: int) -> Seq<char> {
    if n < 0 {
        seq!['-'] + decimal_digits((-n) as nat)
    } else {
        decimal_digits(n as nat)
    }
}

/// A run of digits is worth at least as much as any of its prefixes.
proof fn lemma_prefix_value(s: Seq<char>, k: int)
    requires
        0 <= k <= s.len(),
    ensures
        decimal_value(s.take(k)) <= decimal_value(s),
    decreases s.len() - k,
{
    if k == s.len() {
        assert(s.take(k) == s);
    } else {
        lemma_prefix_value(s, k + 1);
        assert(s.take(k + 1).drop_last() == s.take(k));
    }
}

/// The digit that `c` stands for, if it is one.
fn digit_of(c: char) -> (digit: Option<u64>)
    ensures
        digit == (if is_digit(c) {
            Some(digit_value(c) as u64)
        } else {
            None
        }),
{
    let code: u32 = c as u32;
    if 48 <= code && code <= 57 {
        Some((code - 48) as u64)
    } else {
        None
    }
}

/// Reads the digits of `chars` from `start` on as a number no larger than `limit`.
fn read_digits(chars: &Vec<char>, start: usize, limit: u64) -> (value: Option<u64>)
    requires
        start <= chars.len(),
    ensures
        value == (if is_decimal(chars@.skip(start as int)) && decimal_value(
            chars@.skip(start as int),
        ) <= limit {
            Some(decimal_value(chars@.skip(start as int)) as u64)
        } else {
            None
        }),
{
    let ghost digits = chars@.skip(start as int);
    if start == chars.len() {
        return None;
    }
    let mut value: u64 = 0;
    let mut i: usize = start;
    while i < chars.len()
        invariant
            start <= i <= chars.len(),
            digits == chars@.skip(start as int),
            forall|j: int| 0 <= j < i - start ==> is_digit(#[trigger] digits[j]),
            value == decimal_value(digits.take(i - start)),
            value <= limit,
        decreases chars.len() - i,
    {
        let c = chars[i];
        let digit: u64 = match digit_of(c) {
            Some(digit) => digit,
            None => {
                return None;
            },
        };
        let next: u128 = value as u128 * 10 + digit as u128;
        proof {
            assert(digits.take(i - start + 1).drop_last() == digits.take(i - start));
        }
        if next > limit as u128 {
            proof {
                if is_decimal(digits) {
                    lemma_prefix_value(digits, i - start + 1);
                }
            }
            return None;
        }
        value = next as u64;
        i += 1;
    }
    assert(digits.take(i - start) == digits);
    Some(value)
}

/// Reads `text` as an unsigned 64-bit number in base ten.
pub fn parse_u64(text: &str) -> (value: Option<u64>)
    ensures
        value == parsed_u64(text@),
{
    let chars = chars_of(text);
    let start: usize = if chars.len() > 0 && chars[0] == '+' {
        1
    } else {
        0
    };
    assert(chars@.skip(start as int) == without_plus(text@));
    read_digits(&chars, start, u64::MAX)
}

/// Reads `text` as a signed 32-bit number in base ten.
pub fn parse_i32(text: &str) -> (value: Option<i32>)
    ensures
        value == parsed_i32(text@),
{
    let chars = chars_of(text);
    if chars.len() > 0 && chars[0] == '-' {
        match read_digits(&chars, 1, 0x8000_0000) {
            Some(magnitude) => Some((-(magnitude as i64)) as i32),
            None => None,
        }
    } else {
        let start: usize = if chars.len() > 0 && chars[0] == '+' {
            1
        } else {
            0
        };
        assert(chars@.skip(start as int) == without_plus(text@));
        match read_digits(&chars, start, 0x7fff_ffff) {
            Some(magnitude) => Some(magnitude as i32),
            None => None,
        }
    }
}

/// The one-character text of the digit `d`.
fn digit_text(d: u64) -> (text: &'static str)
    requires
        d < 10,
    ensures
        text@ == seq![digit_char(d as nat)],
{
    proof {
        reveal_strlit("0");
        reveal_strlit("1");
        reveal_strlit("2");
        reveal_strlit("3");
        reveal_strlit("4");
        reveal_strlit("5");
        reveal_strlit("6");
        reveal_strlit("7");
        reveal_strlit("8");
        reveal_strlit("9");
    }
    let text = if d == 0 {
        "0"
    } else if d == 1 {
        "1"
    } else if d == 2 {
        "2"
    } else if d == 3 {
        "3"
    } else if d == 4 {
        "4"
    } else if d == 5 {
        "5"
    } else if d == 6 {
        "6"
    } else if d == 7 {
        "7"
    } else if d == 8 {
        "8"
    } else {
        "9"
    };
    text
}

/// Writes `n` in base ten.
pub fn u64_to_decimal(n: u64) -> (text: String)
    ensures
        text@ == decimal_digits(n as nat),
    decreases n,
{
    if n < 10 {
        String::from_str(digit_text(n))
    } else {
        let mut text = u64_to_decimal(n / 10);
        text.append(digit_text(n % 10));
        assert(text@ =~= decimal_digits(n as nat));
        text
    }
}

/// Writes `n` in base ten, with its sign when it is negative.
pub fn i32_to_decimal(n: i32) -> (text: String)
    ensures
        text@ == signed_decimal_digits(n as int),
{
    if n < 0 {
        let magnitude: u64 = (-(n as i64)) as u64;
        let mut text = String::from_str("-");
        proof {
            reveal_strlit("-");
        }
        let digits = u64_to_decimal(magnitude);
        text.append(digits.as_str());
        text
    } else {
        u64_to_decimal(n as u64)
    }
}

/// The digits that write a number are digits, and they are worth the number.
pub proof fn lemma_digits_are_worth_the_number(n: nat)
    ensures
        is_decimal(decimal_digits(n)),
        decimal_value(decimal_digits(n)) == n,
        decimal_digits(n)[0] != '+',
        decimal_digits(n)[0] != '-',
    decreases n,
{
    let digits = decimal_digits(n);
    if n < 10 {
        assert(decimal_value(digits.drop_last()) == 0);
    } else {
        lemma_digits_are_worth_the_number(n / 10);
        assert(digits.drop_last() == decimal_digits(n / 10));
    }
}

/// What is written is read back: a number that fits is the number that its
/// own digits read as.
pub proof fn lemma_written_is_read_back(n: int)
    ensures
        0 <= n <= u64::MAX ==> parsed_u64(decimal_digits(n as nat)) == Some(n as u64),
        i32::MIN <= n <= i32::MAX ==> parsed_i32(signed_decimal_digits(n)) == Some(n as i32),
{
    if 0 <= n {
        lemma_digits_are_worth_the_number(n as nat);
    } else {
        lemma_digits_are_worth_the_number((-n) as nat);
        assert(signed_decimal_digits(n).skip(1) == decimal_digits((-n) as nat));
    }
}

} // verus!
