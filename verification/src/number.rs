//! Decimal integers written as text.
//!
//! A number is one or more ASCII digits, after an optional `+` (and, for a
//! signed number, an optional `-` instead). Leading zeros are allowed, and
//! nothing else is: no spaces, no underscores, no other digits of Unicode.
//! The text denotes a number of a type only if its value fits the type.

use vstd::prelude::*;

verus! {

/// Whether `c` is one of the ASCII digits `0` to `9`.
pub open spec fn is_digit(c: char) -> bool {
    '0' <= c && c <= '9'
}

/// The value of the digit `c`.
pub open spec fn digit_value(c: char) -> nat {
    (c as int - '0' as int) as nat
}

/// Whether every character of `s` is a digit.
pub open spec fn all_digits(s: Seq<char>) -> bool {
    forall|i: int| 0 <= i < s.len() ==> is_digit(#[trigger] s[i])
}

/// The number that the digits `s` denote in base ten; 0 for no digits.
pub open spec fn decimal_value(s: Seq<char>) -> nat
    decreases s.len(),
{
    if s.len() == 0 {
        0
    } else {
        10 * decimal_value(s.drop_last()) + digit_value(s.last())
    }
}

/// Whether `s` is a run of at least one digit whose value is at most `max`.
pub open spec fn is_decimal_within(s: Seq<char>, max: nat) -> bool {
    s.len() > 0 && all_digits(s) && decimal_value(s) <= max
}

/// The number at most `max` that `s` denotes without a minus sign, if any.
pub open spec fn unsigned_of_text(s: Seq<char>, max: nat) -> Option<nat> {
    let digits = if s.len() > 0 && s[0] == '+' {
        s.subrange(1, s.len() as int)
    } else {
        s
    };
    if is_decimal_within(digits, max) {
        Some(decimal_value(digits))
    } else {
        None
    }
}

/// The number between `-below` and `max` that `s` denotes, if any.
pub open spec fn signed_of_text(s: Seq<char>, below: nat, max: nat) -> Option<int> {
    if s.len() > 0 && s[0] == '-' {
        let digits = s.subrange(1, s.len() as int);
        if is_decimal_within(digits, below) {
            Some(-(decimal_value(digits) as int))
        } else {
            None
        }
    } else {
        match unsigned_of_text(s, max) {
            Some(v) => Some(v as int),
            None => None,
        }
    }
}

/// The 16-bit unsigned number that `s` denotes, if any.
pub open spec fn u16_of_text(s: Seq<char>) -> Option<u16> {
    match unsigned_of_text(s, u16::MAX as nat) {
        Some(v) => Some(v as u16),
        None => None,
    }
}

/// The 32-bit unsigned number that `s` denotes, if any.
pub open spec fn u32_of_text(s: Seq<char>) -> Option<u32> {
    match unsigned_of_text(s, u32::MAX as nat) {
        Some(v) => Some(v as u32),
        None => None,
    }
}

/// The 64-bit unsigned number that `s` denotes, if any.
pub open spec fn u64_of_text(s: Seq<char>) -> Option<u64> {
    match unsigned_of_text(s, u64::MAX as nat) {
        Some(v) => Some(v as u64),
        None => None,
    }
}

/// The unsigned, of the machine's word size, number that `s` denotes, if any.
pub open spec fn usize_of_text(s: Seq<char>) -> Option<usize> {
    match unsigned_of_text(s, usize::MAX as nat) {
        Some(v) => Some(v as usize),
        None => None,
    }
}

/// The 32-bit signed number that `s` denotes, if any.
pub open spec fn i32_of_text(s: Seq<char>) -> Option<i32> {
    match signed_of_text(s, 0x8000_0000, 0x7fff_ffff) {
        Some(v) => Some(v as i32),
        None => None,
    }
}

/// The truth value that `s` denotes: `true` or `false`, spelled exactly so.
pub open spec fn bool_of_text(s: Seq<char>) -> Option<bool> {
    if s == seq!['t', 'r', 'u', 'e'] {
        Some(true)
    } else if s == seq!['f', 'a', 'l', 's', 'e'] {
        Some(false)
    } else {
        None
    }
}

/// A run of digits is worth at least as much as any run it begins with.
pub proof fn lemma_decimal_value_grows(s: Seq<char>, k: int)
    requires
        0 <= k <= s.len(),
    ensures
        decimal_value(s.take(k)) <= decimal_value(s),
    decreases s.len(),
{
    if k == s.len() {
        assert(s.take(k) == s);
    } else {
        assert(s.drop_last().take(k) == s.take(k));
        lemma_decimal_value_grows(s.drop_last(), k);
    }
}

/// The value of the digits `text[from..]`, if there is at least one
/// character there, all are digits, and the value is at most `max`.
pub fn decimal_from(text: &Vec<char>, from: usize, max: u64) -> (r: Option<u64>)
    requires
        from <= text.len(),
    ensures
        r == (if is_decimal_within(text@.subrange(from as int, text.len() as int), max as nat) {
            Some(decimal_value(text@.subrange(from as int, text.len() as int)) as u64)
        } else {
            None
        }),
{
    let ghost digits = text@.subrange(from as int, text.len() as int);
    if from == text.len() {
        return None;
    }
    let mut acc: u64 = 0;
    let mut i: usize = from;
    while i < text.len()
        invariant
            from <= i <= text.len(),
            digits == text@.subrange(from as int, text.len() as int),
            all_digits(digits.take(i - from)),
            acc == decimal_value(digits.take(i - from)),
            acc <= max,
        decreases text.len() - i,
    {
        let c = text[i];
        assert(c == digits[i - from]);
        if c < '0' || c > '9' {
            return None;
        }
        let d: u32 = c as u32 - '0' as u32;
        let wide: u128 = acc as u128 * 10 + d as u128;
        assert(digits.take(i - from + 1).drop_last() == digits.take(i - from));
        assert(digits.take(i - from + 1).last() == c);
        assert(wide == decimal_value(digits.take(i - from + 1)));
        if wide > max as u128 {
            proof {
                lemma_decimal_value_grows(digits, i - from + 1);
            }
            return None;
        }
        assert(all_digits(digits.take(i - from + 1))) by {
            assert forall|j: int| 0 <= j < i - from + 1 implies is_digit(
                #[trigger] digits.take(i - from + 1)[j],
            ) by {
                if j < i - from {
                    assert(digits.take(i - from + 1)[j] == digits.take(i - from)[j]);
                }
            }
        }
        acc = wide as u64;
        i = i + 1;
    }
    assert(digits.take(digits.len() as int) == digits);
    Some(acc)
}

/// The unsigned number at most `max` that `text` denotes.
pub fn parse_unsigned(text: &Vec<char>, max: u64) -> (r: Option<u64>)
    ensures
        r == match unsigned_of_text(text@, max as nat) {
            Some(v) => Some(v as u64),
            None => None,
        },
{
    if text.len() > 0 && text[0] == '+' {
        decimal_from(text, 1, max)
    } else {
        assert(text@.subrange(0, text.len() as int) == text@);
        decimal_from(text, 0, max)
    }
}

/// The 32-bit signed number that `text` denotes.
pub fn parse_i32(text: &Vec<char>) -> (r: Option<i32>)
    ensures
        r == i32_of_text(text@),
{
    if text.len() > 0 && text[0] == '-' {
        match decimal_from(text, 1, 0x8000_0000) {
            Some(m) => Some((-(m as i64)) as i32),
            None => None,
        }
    } else {
        match parse_unsigned(text, 0x7fff_ffff) {
            Some(v) => Some(v as i32),
            None => None,
        }
    }
}

/// The 16-bit unsigned number that `text` denotes.
pub fn parse_u16(text: &Vec<char>) -> (r: Option<u16>)
    ensures
        r == u16_of_text(text@),
{
    match parse_unsigned(text, 0xffff) {
        Some(v) => Some(v as u16),
        None => None,
    }
}

/// The 32-bit unsigned number that `text` denotes.
pub fn parse_u32(text: &Vec<char>) -> (r: Option<u32>)
    ensures
        r == u32_of_text(text@),
{
    match parse_unsigned(text, 0xffff_ffff) {
        Some(v) => Some(v as u32),
        None => None,
    }
}

/// The 64-bit unsigned number that `text` denotes.
pub fn parse_u64(text: &Vec<char>) -> (r: Option<u64>)
    ensures
        r == u64_of_text(text@),
{
    parse_unsigned(text, u64::MAX)
}

/// The unsigned number of the machine's word size that `text` denotes.
pub fn parse_usize(text: &Vec<char>) -> (r: Option<usize>)
    ensures
        r == usize_of_text(text@),
{
    match parse_unsigned(text, usize::MAX as u64) {
        Some(v) => Some(v as usize),
        None => None,
    }
}

/// The truth value that `text` denotes.
pub fn parse_bool(text: &Vec<char>) -> (r: Option<bool>)
    ensures
        r == bool_of_text(text@),
{
    if text.len() == 4 && text[0] == 't' && text[1] == 'r' && text[2] == 'u' && text[3] == 'e' {
        assert(text@ == seq!['t', 'r', 'u', 'e']);
        Some(true)
    } else if text.len() == 5 && text[0] == 'f' && text[1] == 'a' && text[2] == 'l' && text[3]
        == 's' && text[4] == 'e' {
        assert(text@ == seq!['f', 'a', 'l', 's', 'e']);
        Some(false)
    } else {
        assert(text@ != seq!['t', 'r', 'u', 'e']) by {
            let t = seq!['t', 'r', 'u', 'e'];
            if text@ == t {
                assert(t.len() == 4);
                assert(t[0] == 't' && t[1] == 'r' && t[2] == 'u' && t[3] == 'e');
            }
        }
        assert(text@ != seq!['f', 'a', 'l', 's', 'e']) by {
            let f = seq!['f', 'a', 'l', 's', 'e'];
            if text@ == f {
                assert(f.len() == 5);
                assert(f[0] == 'f' && f[1] == 'a' && f[2] == 'l' && f[3] == 's' && f[4] == 'e');
            }
        }
        None
    }
}

} // verus!
