//! Whole numbers written in decimal digits, and the comparison of texts.

use vstd::prelude::*;
use vstd::string::StrSliceExecFns;

verus! {

/// The value of a decimal digit.
pub open spec fn digit_of(c: char) -> Option<nat> {
    if '0' <= c && c <= '9' {
        Some((c as int - '0' as int) as nat)
    } else {
        None
    }
}

/// The number that a row of decimal digits writes, if all of them are digits. The empty row
/// writes zero.
pub open spec fn digits_value(digits: Seq<char>) -> Option<nat>
    decreases digits.len(),
{
    if digits.len() == 0 {
        Some(0)
    } else {
        match (digits_value(digits.drop_last()), digit_of(digits.last())) {
            (Some(high), Some(low)) => Some(high * 10 + low),
            _ => None,
        }
    }
}

/// The digits of a number's text: the text without the plus sign that may lead it.
pub open spec fn unsigned_part(text: Seq<char>) -> Seq<char> {
    if text.len() > 0 && text[0] == '+' {
        text.subrange(1, text.len() as int)
    } else {
        text
    }
}

/// The `u32` that a text writes: at least one decimal digit, with or without a plus sign
/// before them and nothing else around them, and a value that a `u32` holds.
pub open spec fn decimal_u32(text: Seq<char>) -> Option<u32> {
    let digits = unsigned_part(text);
    match digits_value(digits) {
        Some(value) => if digits.len() > 0 && value <= u32::MAX {
            Some(value as u32)
        } else {
            None
        },
        None => None,
    }
}

/// Every prefix of a row of digits writes a number, and none that is greater than the number
/// of the whole row.
pub proof fn lemma_digits_prefix(digits: Seq<char>, count: int)
    requires
        0 <= count <= digits.len(),
        digits_value(digits) is Some,
    ensures
        digits_value(digits.take(count)) is Some,
        digits_value(digits.take(count))->0 <= digits_value(digits)->0,
    decreases digits.len(),
{
    if count == digits.len() {
        assert(digits.take(count) == digits);
    } else {
        assert(digits.drop_last().take(count) == digits.take(count));
        lemma_digits_prefix(digits.drop_last(), count);
    }
}

/// Reads a `u32` from its decimal text.
pub fn parse_u32(text: &str) -> (parsed: Option<u32>)
    ensures
        parsed == decimal_u32(text@),
{
    let length: usize = text.unicode_len();
    if length == 0 {
        return None;
    }
    let start: usize = if text.get_char(0) == '+' {
        1
    } else {
        0
    };
    if start == length {
        return None;
    }
    let ghost digits = unsigned_part(text@);
    assert(digits == text@.subrange(start as int, length as int));
    let mut value: u64 = 0;
    let mut at: usize = start;
    assert(digits.take(0).len() == 0);
    while at < length
        invariant
            start <= at <= length,
            length == text@.len(),
            digits == text@.subrange(start as int, length as int),
            digits == unsigned_part(text@),
            digits_value(digits.take(at - start)) == Some(value as nat),
            value <= u32::MAX,
        decreases length - at,
    {
        let c: char = text.get_char(at);
        let ghost seen = digits.take(at - start + 1);
        assert(seen.drop_last() == digits.take(at - start));
        assert(seen.last() == c);
        if c < '0' || c > '9' {
            proof {
                if digits_value(digits) is Some {
                    lemma_digits_prefix(digits, at - start + 1);
                }
            }
            return None;
        }
        let low: u64 = (c as u32 - '0' as u32) as u64;
        let next: u64 = value * 10 + low;
        assert(digits_value(seen) == Some(next as nat));
        if next > u32::MAX as u64 {
            proof {
                if digits_value(digits) is Some {
                    lemma_digits_prefix(digits, at - start + 1);
                }
            }
            return None;
        }
        value = next;
        at += 1;
    }
    assert(digits.take(length - start) == digits);
    Some(value as u32)
}

/// Whether two texts are the same.
pub fn same_text(left: &str, right: &str) -> (same: bool)
    ensures
        same == (left@ == right@),
{
    left.to_owned() == right.to_owned()
}

} // verus!
