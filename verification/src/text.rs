//! Texts as sequences of characters.

use vstd::prelude::*;

verus! {

/// The characters of a text.
pub fn chars_of(text: &str) -> (chars: Vec<char>)
    ensures
        chars@ == text@,
{
    let ghost input = text@;
    let mut chars: Vec<char> = Vec::new();
    proof {
        assert(input.take(0) =~= Seq::<char>::empty());
    }
    for c in it: text.chars()
        invariant
            it.seq() == input,
            chars@ == input.take(it.index() as int),
    {
        proof {
            assert(input.take(it.index() + 1) =~= input.take(it.index() as int).push(c));
        }
        chars.push(c);
    }
    proof {
        assert(input.take(input.len() as int) =~= input);
    }
    chars
}

/// Whether two texts hold the same characters.
pub fn same_text(first: &str, second: &str) -> (same: bool)
    ensures
        same == (first@ == second@),
{
    let left = chars_of(first);
    let right = chars_of(second);
    if left.len() != right.len() {
        return false;
    }
    let mut at: usize = 0;
    while at < left.len()
        invariant
            at <= left.len(),
            left.len() == right.len(),
            left@ == first@,
            right@ == second@,
            forall|i: int| 0 <= i < at ==> #[trigger] left@[i] == right@[i],
        decreases left.len() - at,
    {
        if left[at] != right[at] {
            return false;
        }
        at += 1;
    }
    assert(first@ =~= second@);
    true
}

/// Every character of `text` is one of the digits `0` to `9`.
pub open spec fn all_digits(text: Seq<char>) -> bool {
    forall|i: int| 0 <= i < text.len() ==> '0' <= #[trigger] text[i] <= '9'
}

/// The number that decimal digits stand for.
pub open spec fn decimal_value(digits: Seq<char>) -> int
    decreases digits.len(),
{
    if digits.len() == 0 {
        0
    } else {
        10 * decimal_value(digits.drop_last()) + (digits.last() as int - '0' as int)
    }
}

/// The integer that `text` stands for: an optional sign, `+` or `-`, and
/// then digits and nothing else, at least one of them. A number that a
/// 32-bit integer cannot hold stands for nothing.
pub open spec fn parsed_i32(text: Seq<char>) -> Option<i32> {
    let signed = text.len() > 0 && (text[0] == '+' || text[0] == '-');
    let digits = if signed {
        text.drop_first()
    } else {
        text
    };
    let value = if signed && text[0] == '-' {
        -decimal_value(digits)
    } else {
        decimal_value(digits)
    };
    if digits.len() > 0 && all_digits(digits) && i32::MIN <= value <= i32::MAX {
        Some(value as i32)
    } else {
        None
    }
}

/// The value of digits never falls when digits are appended, and a digit
/// more makes a value of at least ten times the size.
proof fn lemma_decimal_value_grows(digits: Seq<char>, count: int)
    requires
        all_digits(digits),
        0 <= count <= digits.len(),
    ensures
        0 <= decimal_value(digits.take(count)) <= decimal_value(digits),
    decreases digits.len() - count,
{
    lemma_decimal_value_sign(digits.take(count));
    if count < digits.len() {
        lemma_decimal_value_grows(digits, count + 1);
        assert(digits.take(count + 1).drop_last() =~= digits.take(count));
        assert(digits.take(count + 1).last() == digits[count]);
    } else {
        assert(digits.take(count) =~= digits);
    }
}

/// The value of digits is not negative.
proof fn lemma_decimal_value_sign(digits: Seq<char>)
    requires
        all_digits(digits),
    ensures
        decimal_value(digits) >= 0,
    decreases digits.len(),
{
    if digits.len() > 0 {
        assert forall|i: int| 0 <= i < digits.drop_last().len() implies '0'
            <= #[trigger] digits.drop_last()[i] <= '9' by {
            assert(digits.drop_last()[i] == digits[i]);
        }
        lemma_decimal_value_sign(digits.drop_last());
        assert('0' <= digits[digits.len() - 1] <= '9');
    }
}

/// Reads an integer from the characters of `text` between `start` and
/// `end`.
#[verifier::loop_isolation(false)]
pub(crate) fn parse_i32(text: &Vec<char>, start: usize, end: usize) -> (parsed: Option<i32>)
    requires
        start <= end <= text.len(),
    ensures
        parsed == parsed_i32(text@.subrange(start as int, end as int)),
{
    let ghost whole = text@.subrange(start as int, end as int);
    if start == end {
        return None;
    }
    let first = text[start];
    assert(whole[0] == first);
    let negative = first == '-';
    let signed = first == '+' || first == '-';
    let from = if signed {
        start + 1
    } else {
        start
    };
    let ghost digits = text@.subrange(from as int, end as int);
    proof {
        if signed {
            assert(whole.drop_first() =~= digits);
        } else {
            assert(whole =~= digits);
        }
    }
    if from == end {
        return None;
    }
    let mut value: i64 = 0;
    let mut at = from;
    proof {
        assert(digits.take(0) =~= Seq::<char>::empty());
    }
    while at < end
        invariant
            from <= at <= end <= text.len(),
            digits == text@.subrange(from as int, end as int),
            all_digits(digits.take(at - from)),
            value == decimal_value(digits.take(at - from)),
            0 <= value <= 0x8000_0000,
        decreases end - at,
    {
        let c = text[at];
        let ghost seen = digits.take(at - from);
        proof {
            assert(digits[at - from] == c);
            assert(digits.take(at - from + 1).drop_last() =~= seen);
            assert(digits.take(at - from + 1).last() == c);
        }
        let code = digit_value(c);
        match code {
            None => {
                assert(!all_digits(digits));
                return None;
            },
            Some(digit) => {
                proof {
                    assert forall|i: int| 0 <= i < at - from + 1 implies '0'
                        <= #[trigger] digits.take(at - from + 1)[i] <= '9' by {
                        if i < at - from {
                            assert(seen[i] == digits.take(at - from + 1)[i]);
                        }
                    }
                }
                value = 10 * value + digit as i64;
                if value > 0x8000_0000 {
                    proof {
                        if all_digits(digits) {
                            lemma_decimal_value_grows(digits, at - from + 1);
                        }
                    }
                    return None;
                }
            },
        }
        at += 1;
    }
    proof {
        assert(digits.take(end - from) =~= digits);
    }
    if negative {
        Some((-value) as i32)
    } else if value > 0x7fff_ffff {
        None
    } else {
        Some(value as i32)
    }
}

/// The value of one of the digits `0` to `9`.
fn digit_value(c: char) -> (value: Option<u8>)
    ensures
        match value {
            Some(digit) => '0' <= c <= '9' && digit == c as int - '0' as int,
            None => !('0' <= c <= '9'),
        },
{
    let code = c as u32;
    if '0' as u32 <= code && code <= '9' as u32 {
        Some((code - '0' as u32) as u8)
    } else {
        None
    }
}

/// Reads an integer from a text.
pub fn parse_integer(text: &str) -> (parsed: Option<i32>)
    ensures
        parsed == parsed_i32(text@),
{
    let chars = chars_of(text);
    assert(chars@.subrange(0, chars.len() as int) =~= text@);
    parse_i32(&chars, 0, chars.len())
}

} // verus!
