//! Validation of a time-to-live given on the command line.

use vstd::prelude::*;
use vstd::slice::slice_index_get;
use vstd::string::StringExecFns;
use vstd::utf8::{is_ascii_chars, is_ascii_chars_encode_utf8};

use crate::text::{decimal, digit_char};

verus! {

/// The least time-to-live, in seconds, that the service takes.
pub const RRSET_TTL_MIN: usize = 300;

/// The greatest time-to-live, in seconds, that the service takes.
pub const RRSET_TTL_MAX: usize = 2592000;

/// A decimal digit.
pub open spec fn is_digit(c: char) -> bool {
    '0' <= c <= '9'
}

/// The number that a decimal digit stands for.
pub open spec fn digit_value(c: char) -> nat {
    (c as u32 - '0' as u32) as nat
}

/// Every character is a decimal digit.
pub open spec fn all_digits(text: Seq<char>) -> bool {
    forall|i: int| 0 <= i < text.len() ==> is_digit(#[trigger] text[i])
}

/// The number written by a sequence of decimal digits.
pub open spec fn digits_value(digits: Seq<char>) -> nat
    decreases digits.len(),
{
    if digits.len() == 0 {
        0
    } else {
        digits_value(digits.drop_last()) * 10 + digit_value(digits.last())
    }
}

/// The text without the plus sign that may lead a number.
pub open spec fn unsigned(text: Seq<char>) -> Seq<char> {
    if text.len() > 0 && text[0] == '+' {
        text.drop_first()
    } else {
        text
    }
}

/// The number that a text writes as a `usize`: an optional plus sign, then at
/// least one decimal digit and nothing else, of a value that a `usize` holds.
pub open spec fn parsed_number(text: Seq<char>) -> Option<usize> {
    let digits = unsigned(text);
    if digits.len() > 0 && all_digits(digits) && digits_value(digits) <= usize::MAX {
        Some(digits_value(digits) as usize)
    } else {
        None
    }
}

/// The time-to-live that a text gives, or why it gives none.
pub open spec fn ttl_in_range(text: Seq<char>) -> Result<u32, Seq<char>> {
    match parsed_number(text) {
        None => Err("'"@ + text + " isn't a ttl number'"@),
        Some(seconds) => if RRSET_TTL_MIN <= seconds <= RRSET_TTL_MAX {
            Ok(seconds as u32)
        } else {
            Err("rrset_ttl not in range 300-2592000"@)
        },
    }
}

/// The model of what `rrset_ttl_in_range` returned.
pub open spec fn ttl_view(checked: Result<u32, String>) -> Result<u32, Seq<char>> {
    match checked {
        Ok(seconds) => Ok(seconds),
        Err(reason) => Err(reason@),
    }
}

/// A number is at least the number that any of its leading digits write.
proof fn lemma_prefix_value(digits: Seq<char>, len: int)
    requires
        0 <= len <= digits.len(),
    ensures
        digits_value(digits.subrange(0, len)) <= digits_value(digits),
    decreases digits.len() - len,
{
    if len == digits.len() {
        assert(digits.subrange(0, len) =~= digits);
    } else {
        lemma_prefix_value(digits, len + 1);
        let longer = digits.subrange(0, len + 1);
        assert(longer.drop_last() =~= digits.subrange(0, len));
    }
}

/// Decimal notation reads back: the digits that write a number are digits
/// only, and their value is the number.
pub proof fn lemma_decimal_reads_back(n: nat)
    ensures
        decimal(n).len() > 0,
        all_digits(decimal(n)),
        digits_value(decimal(n)) == n,
        decimal(n)[0] != '+',
    decreases n,
{
    let digits = decimal(n);
    let last = digit_char(n % 10);
    assert(is_digit(last) && digit_value(last) == n % 10);
    if n < 10 {
        assert(digits.drop_last() =~= Seq::<char>::empty());
        assert(digits_value(digits.drop_last()) == 0);
    } else {
        lemma_decimal_reads_back(n / 10);
        assert(digits.drop_last() =~= decimal(n / 10));
        assert(digits[0] == decimal(n / 10)[0]);
        assert forall|i: int| 0 <= i < digits.len() implies is_digit(#[trigger] digits[i]) by {
            if i < digits.len() - 1 {
                assert(digits[i] == decimal(n / 10)[i]);
            }
        }
    }
    assert(digits.last() == last);
    assert(digits_value(digits) == digits_value(digits.drop_last()) * 10 + digit_value(last));
}

/// A time-to-live in range, written in decimal notation, is accepted as
/// itself.
pub proof fn lemma_written_ttl_is_accepted(seconds: u32)
    requires
        RRSET_TTL_MIN <= seconds <= RRSET_TTL_MAX,
    ensures
        ttl_in_range(decimal(seconds as nat)) == Ok::<u32, Seq<char>>(seconds),
{
    lemma_decimal_reads_back(seconds as nat);
}

/// Reads a `usize` in decimal notation, as `str::parse` does: an optional
/// plus sign, then digits only.
pub fn parse_number(text: &str) -> (parsed: Option<usize>)
    ensures
        parsed == parsed_number(text@),
{
    let ghost digits = unsigned(text@);
    if !text.is_ascii() {
        proof {
            let i = choose|i: int|
                0 <= i < text@.len() && !('\0' <= (#[trigger] text@[i]) <= '\u{7f}');
            if text@.len() > 0 && text@[0] == '+' {
                assert(digits[i - 1] == text@[i]);
            }
        }
        return None;
    }
    let bytes = text.as_bytes();
    proof {
        is_ascii_chars_encode_utf8(text@);
    }
    let len: usize = bytes.len();
    let start: usize = if len > 0 && *slice_index_get(bytes, 0) == 43 {
        1
    } else {
        0
    };
    assert(digits =~= text@.subrange(start as int, len as int));
    if start == len {
        return None;
    }
    let mut value: usize = 0;
    let mut i: usize = start;
    while i < len
        invariant
            start <= i <= len,
            len == text@.len(),
            bytes@.len() == len,
            is_ascii_chars(text@),
            forall|j: int| 0 <= j < len ==> #[trigger] bytes@[j] == text@[j] as u8,
            digits == unsigned(text@),
            digits == text@.subrange(start as int, len as int),
            all_digits(digits.subrange(0, i - start)),
            value == digits_value(digits.subrange(0, i - start)),
        decreases len - i,
    {
        let byte: u8 = *slice_index_get(bytes, i);
        let ghost c = text@[i as int];
        let ghost seen = digits.subrange(0, i - start);
        let ghost next = digits.subrange(0, i - start + 1);
        assert(digits[i - start] == c);
        assert(next.drop_last() =~= seen);
        assert(next.last() == c);
        if byte < 48 || byte > 57 {
            assert(!is_digit(digits[i - start]));
            assert(!all_digits(digits));
            return None;
        }
        assert(is_digit(c));
        assert(digit_value(c) == byte - 48);
        assert(all_digits(next)) by {
            assert forall|j: int| 0 <= j < next.len() implies is_digit(#[trigger] next[j]) by {
                if j < seen.len() {
                    assert(next[j] == seen[j]);
                }
            }
        }
        let digit: usize = (byte - 48) as usize;
        let grown = match value.checked_mul(10) {
            Some(tens) => tens.checked_add(digit),
            None => None,
        };
        match grown {
            Some(sum) => {
                value = sum;
            },
            None => {
                proof {
                    assert(digits_value(next) > usize::MAX);
                    lemma_prefix_value(digits, i - start + 1);
                }
                return None;
            },
        }
        i = i + 1;
    }
    assert(digits.subrange(0, i - start) =~= digits);
    Some(value)
}

/// Accepts a time-to-live that is a number of seconds from 300 to 2592000.
///
/// A text that is no number is refused with a message that quotes it; a
/// number outside the range is refused with a message that names the range.
pub fn rrset_ttl_in_range(rrset_ttl: &str) -> (checked: Result<u32, String>)
    ensures
        ttl_view(checked) == ttl_in_range(rrset_ttl@),
{
    match parse_number(rrset_ttl) {
        None => {
            let mut reason = "'".to_owned();
            reason.append(rrset_ttl);
            reason.append(" isn't a ttl number'");
            Err(reason)
        },
        Some(seconds) => {
            if RRSET_TTL_MIN <= seconds && seconds <= RRSET_TTL_MAX {
                Ok(seconds as u32)
            } else {
                Err("rrset_ttl not in range 300-2592000".to_owned())
            }
        },
    }
}

} // verus!
