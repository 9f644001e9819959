//! How long test builds hold back an update of the API state.

use vstd::prelude::*;

verus! {

/// The value given for the delay is not a number of milliseconds.
#[derive(Debug, Clone, Copy, PartialEq, Eq, Structural)]
pub struct InvalidDelay;

/// The character is a decimal digit.
pub open spec fn is_digit(c: char) -> bool {
    '0' <= c <= '9'
}

/// The characters are decimal digits, and there is at least one.
pub open spec fn is_decimal(digits: Seq<char>) -> bool {
    digits.len() > 0 && forall|i: int| 0 <= i < digits.len() ==> is_digit(#[trigger] digits[i])
}

/// The number that decimal digits stand for.
pub open spec fn decimal_value(digits: Seq<char>) -> nat
    decreases digits.len(),
{
    if digits.len() == 0 {
        0
    } else {
        10 * decimal_value(digits.drop_last()) + (digits.last() as nat - '0' as nat) as nat
    }
}

/// The characters behind one leading plus sign, if there is one.
pub open spec fn without_plus(text: Seq<char>) -> Seq<char> {
    if text.len() > 0 && text[0] == '+' {
        text.skip(1)
    } else {
        text
    }
}

/// The number that a text stands for, if it does and if the number fits.
pub open spec fn parsed_u64(text: Seq<char>) -> Option<u64> {
    let digits = without_plus(text);
    if is_decimal(digits) && decimal_value(digits) <= u64::MAX {
        Some(decimal_value(digits) as u64)
    } else {
        None
    }
}

/// More digits do not make a number smaller.
proof fn lemma_decimal_value_grows(digits: Seq<char>, n: int)
    requires
        0 <= n <= digits.len(),
    ensures
        decimal_value(digits.take(n)) <= decimal_value(digits),
    decreases digits.len(),
{
    if n == digits.len() {
        assert(digits.take(n) =~= digits);
    } else {
        lemma_decimal_value_grows(digits.drop_last(), n);
        assert(digits.drop_last().take(n) =~= digits.take(n));
    }
}

/// Reads a number: decimal digits, with or without a plus sign in front.
pub fn parse_u64(text: &str) -> (r: Option<u64>)
    ensures
        r == parsed_u64(text@),
{
    let len: usize = text.unicode_len();
    let start: usize = if len > 0 && text.get_char(0) == '+' {
        1
    } else {
        0
    };
    let ghost digits = without_plus(text@);
    if start == len {
        assert(digits.len() == 0);
        return None;
    }
    let mut value: u64 = 0;
    let mut i: usize = start;
    assert(digits.take(0) =~= seq![]);
    while i < len
        invariant
            start <= i <= len,
            start <= 1,
            len == text@.len(),
            digits == text@.skip(start as int),
            digits == without_plus(text@),
            forall|j: int| 0 <= j < i - start ==> is_digit(#[trigger] digits[j]),
            value == decimal_value(digits.take(i - start)),
        decreases len - i,
    {
        let c = text.get_char(i);
        let ghost n = i - start;
        assert(c == digits[n]);
        if !('0' <= c && c <= '9') {
            return None;
        }
        let digit: u64 = (c as u32 - '0' as u32) as u64;
        assert(digits.take(n + 1).drop_last() =~= digits.take(n));
        assert(decimal_value(digits.take(n + 1)) == 10 * value + digit);
        if value > (u64::MAX - digit) / 10 {
            proof {
                lemma_decimal_value_grows(digits, n + 1);
            }
            return None;
        }
        value = 10 * value + digit;
        i += 1;
    }
    assert(digits.take(len - start) =~= digits);
    Some(value)
}

/// One more digit makes a number ten times as large and adds the digit. No digits are zero.
pub proof fn digits_count_in_tens(digits: Seq<char>, c: char)
    requires
        '0' <= c <= '9',
    ensures
        decimal_value(digits.push(c)) == 10 * decimal_value(digits) + (c as int - '0' as int),
        decimal_value(seq![]) == 0,
{
    assert(digits.push(c).drop_last() =~= digits);
}

/// A text is a number if and only if it is one or more digits, or a plus sign and one or more
/// digits, and their value fits. The number is that value.
pub proof fn numbers_are_digits_that_fit(text: Seq<char>, digits: Seq<char>)
    requires
        text.len() > 0 && text[0] == '+' ==> digits == text.skip(1),
        !(text.len() > 0 && text[0] == '+') ==> digits == text,
    ensures
        parsed_u64(text) is Some <==> {
            &&& digits.len() > 0
            &&& forall|i: int| 0 <= i < digits.len() ==> '0' <= #[trigger] digits[i] <= '9'
            &&& decimal_value(digits) <= u64::MAX
        },
        parsed_u64(text) matches Some(value) ==> value == decimal_value(digits),
{
    if forall|i: int| 0 <= i < digits.len() ==> '0' <= #[trigger] digits[i] <= '9' {
        assert(forall|i: int| 0 <= i < digits.len() ==> is_digit(#[trigger] digits[i]));
    }
    if is_decimal(digits) {
        assert forall|i: int| 0 <= i < digits.len() implies '0' <= #[trigger] digits[i] <= '9' by {
            assert(is_digit(digits[i]));
        }
    }
}

/// The delay that a value of the environment asks for, in milliseconds. No value and zero
/// ask for none.
pub fn requested_delay(raw_ms: Option<&str>) -> (r: Result<Option<u64>, InvalidDelay>)
    ensures
        r == (match raw_ms {
            None => Ok::<Option<u64>, InvalidDelay>(None),
            Some(raw) => match parsed_u64(raw@) {
                None => Err(InvalidDelay),
                Some(ms) => Ok(
                    if ms > 0 {
                        Some(ms)
                    } else {
                        None
                    },
                ),
            },
        }),
{
    match raw_ms {
        None => Ok(None),
        Some(raw) => match parse_u64(raw) {
            None => Err(InvalidDelay),
            Some(ms) => {
                if ms > 0 {
                    Ok(Some(ms))
                } else {
                    Ok(None)
                }
            },
        },
    }
}

} // verus!
