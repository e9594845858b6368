//! Reading the wait that a rate-limited response asks for.
//!
//! The `retry-after` header arrives as raw bytes. It names a wait when it is
//! an optional `+` followed by at least one decimal digit and the number
//! fits in 64 bits; anything else names none.

use vstd::prelude::*;

verus! {

/// The bytes that a header value may hold when it is to be read as text.
pub open spec fn is_visible_ascii(b: u8) -> bool {
    32 <= b < 127 || b == 9
}

/// Whether every byte of a header value can be read as text.
pub open spec fn is_text(value: Seq<u8>) -> bool {
    forall|i: int| 0 <= i < value.len() ==> is_visible_ascii(#[trigger] value[i])
}

pub open spec fn is_digit(b: u8) -> bool {
    48 <= b <= 57
}

pub open spec fn all_digits(s: Seq<u8>) -> bool {
    forall|i: int| 0 <= i < s.len() ==> is_digit(#[trigger] s[i])
}

/// What one byte contributes as a decimal digit; bytes that are no digit
/// count as zero.
pub open spec fn digit_of(b: u8) -> nat {
    if is_digit(b) {
        (b - 48) as nat
    } else {
        0
    }
}

/// The number that a run of decimal digits denotes, most significant first.
pub open spec fn digits_value(digits: Seq<u8>) -> nat
    decreases digits.len(),
{
    if digits.len() == 0 {
        0
    } else {
        digits_value(digits.drop_last()) * 10 + digit_of(digits.last())
    }
}

/// The value without the `+` that may lead it.
pub open spec fn unsigned_part(value: Seq<u8>) -> Seq<u8> {
    if value.len() > 0 && value[0] == 43 {
        value.skip(1)
    } else {
        value
    }
}

/// The wait in seconds that a header value names, if it names one.
pub open spec fn seconds_of(value: Seq<u8>) -> Option<u64> {
    let digits = unsigned_part(value);
    if digits.len() > 0 && all_digits(digits) && digits_value(digits) <= u64::MAX {
        Some(digits_value(digits) as u64)
    } else {
        None
    }
}

/// A run of digits denotes at least what any of its prefixes denotes.
pub proof fn lemma_prefix_value_is_smaller(digits: Seq<u8>, k: int)
    requires
        0 <= k <= digits.len(),
    ensures
        digits_value(digits.take(k)) <= digits_value(digits),
    decreases digits.len() - k,
{
    if k == digits.len() {
        assert(digits.take(k) =~= digits);
    } else {
        lemma_prefix_value_is_smaller(digits, k + 1);
        let longer = digits.take(k + 1);
        assert(longer.drop_last() =~= digits.take(k));
    }
}

/// A value that names a wait is one that reads as text: judging the text
/// first and the number second rejects nothing that the number alone accepts.
pub proof fn lemma_seconds_are_text(value: Seq<u8>)
    requires
        seconds_of(value) is Some,
    ensures
        is_text(value),
{
    let digits = unsigned_part(value);
    assert forall|i: int| 0 <= i < value.len() implies is_visible_ascii(#[trigger] value[i]) by {
        if value[0] == 43 && i > 0 {
            assert(is_digit(digits[i - 1]));
        }
    }
}

/// Reads the wait in seconds from the value of a `retry-after` header.
pub fn parse_seconds(value: &[u8]) -> (r: Option<u64>)
    ensures
        r == seconds_of(value@),
{
    let n = value.len();
    let start: usize = if n > 0 && value[0] == 43 {
        1
    } else {
        0
    };
    if start == n {
        return None;
    }
    let ghost digits = unsigned_part(value@);
    let mut acc: u64 = 0;
    let mut i: usize = start;
    while i < n
        invariant
            start <= i <= n,
            n == value@.len(),
            digits == value@.skip(start as int),
            digits == unsigned_part(value@),
            all_digits(digits.take(i - start)),
            acc == digits_value(digits.take(i - start)),
        decreases n - i,
    {
        let b = value[i];
        let ghost seen = digits.take(i - start);
        let ghost next = digits.take(i - start + 1);
        assert(next.drop_last() =~= seen);
        if b < 48 || b > 57 {
            assert(!is_digit(digits[i - start]));
            return None;
        }
        proof {
            lemma_prefix_value_is_smaller(digits, i - start + 1);
        }
        let d: u64 = (b - 48) as u64;
        let shifted = match acc.checked_mul(10) {
            Some(m) => m,
            None => {
                return None;
            },
        };
        acc = match shifted.checked_add(d) {
            Some(s) => s,
            None => {
                return None;
            },
        };
        assert forall|j: int| 0 <= j < next.len() implies is_digit(#[trigger] next[j]) by {}
        i += 1;
    }
    assert(digits.take(i - start) =~= digits);
    Some(acc)
}

} // verus!
