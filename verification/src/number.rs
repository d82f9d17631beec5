//! Decimal integer parsing with the acceptance rules of the standard `FromStr`
//! implementations of the integer types: an optional sign (`-` for signed types
//! only), then at least one ASCII digit, and a value inside the type's range.

use vstd::prelude::*;
use crate::text::chars_of;

verus! {

/// ASCII decimal digit.
pub open spec fn is_digit(c: char) -> bool {
    '0' <= c <= '9'
}

/// Numeric value of an ASCII decimal digit.
pub open spec fn digit_value(c: char) -> nat {
    (c as u32 - '0' as u32) as nat
}

/// Every character is an ASCII decimal digit.
pub open spec fn all_digits(s: Seq<char>) -> bool {
    forall|i: int| 0 <= i < s.len() ==> is_digit(#[trigger] s[i])
}

/// Value of a sequence of decimal digits, most significant first.
pub open spec fn digits_value(s: Seq<char>) -> nat
    decreases s.len(),
{
    if s.len() == 0 {
        0
    } else {
        digits_value(s.drop_last()) * 10 + digit_value(s.last())
    }
}

/// Sign and magnitude written by a text: an optional `+`, or `-` when `signed`,
/// followed by one or more decimal digits. `None` when the text has another form.
pub open spec fn sign_and_magnitude(s: Seq<char>, signed: bool) -> Option<(bool, nat)> {
    let negative = signed && s.len() > 0 && s[0] == '-';
    let digits = if s.len() > 0 && (s[0] == '+' || negative) {
        s.drop_first()
    } else {
        s
    };
    if digits.len() > 0 && all_digits(digits) {
        Some((negative, digits_value(digits)))
    } else {
        None
    }
}

/// Value of a text read as an unsigned integer.
pub open spec fn unsigned_value(s: Seq<char>) -> Option<nat> {
    match sign_and_magnitude(s, false) {
        Some((_, m)) => Some(m),
        None => None,
    }
}

/// Value of a text read as a signed integer.
pub open spec fn signed_value(s: Seq<char>) -> Option<int> {
    match sign_and_magnitude(s, true) {
        Some((neg, m)) => Some(
            if neg {
                -m
            } else {
                m as int
            },
        ),
        None => None,
    }
}

/// Result of parsing a text as an unsigned integer no greater than `max`.
pub open spec fn parse_unsigned(s: Seq<char>, max: nat) -> Option<nat> {
    match unsigned_value(s) {
        Some(v) => if v <= max {
            Some(v)
        } else {
            None
        },
        None => None,
    }
}

/// Result of parsing a text as a signed integer inside `min..=max`.
pub open spec fn parse_signed(s: Seq<char>, min: int, max: int) -> Option<int> {
    match signed_value(s) {
        Some(v) => if min <= v <= max {
            Some(v)
        } else {
            None
        },
        None => None,
    }
}

/// Value of a text parsed as a `u8`.
pub open spec fn u8_value(s: Seq<char>) -> Option<u8> {
    match parse_unsigned(s, u8::MAX as nat) {
        Some(v) => Some(v as u8),
        None => None,
    }
}

/// Value of a text parsed as a `u16`.
pub open spec fn u16_value(s: Seq<char>) -> Option<u16> {
    match parse_unsigned(s, u16::MAX as nat) {
        Some(v) => Some(v as u16),
        None => None,
    }
}

/// Value of a text parsed as a `u32`.
pub open spec fn u32_value(s: Seq<char>) -> Option<u32> {
    match parse_unsigned(s, u32::MAX as nat) {
        Some(v) => Some(v as u32),
        None => None,
    }
}

/// Value of a text parsed as a `u64`.
pub open spec fn u64_value(s: Seq<char>) -> Option<u64> {
    match parse_unsigned(s, u64::MAX as nat) {
        Some(v) => Some(v as u64),
        None => None,
    }
}

/// Value of a text parsed as a `usize`.
pub open spec fn usize_value(s: Seq<char>) -> Option<usize> {
    match parse_unsigned(s, usize::MAX as nat) {
        Some(v) => Some(v as usize),
        None => None,
    }
}

/// Value of a text parsed as an `i64`.
pub open spec fn i64_value(s: Seq<char>) -> Option<i64> {
    match parse_signed(s, i64::MIN as int, i64::MAX as int) {
        Some(v) => Some(v as i64),
        None => None,
    }
}

proof fn lemma_digits_value_prefix(s: Seq<char>, k: int)
    requires
        0 <= k <= s.len(),
        all_digits(s),
    ensures
        digits_value(s.take(k)) <= digits_value(s),
    decreases s.len(),
{
    if k < s.len() {
        assert(s.drop_last().take(k) =~= s.take(k));
        lemma_digits_value_prefix(s.drop_last(), k);
    } else {
        assert(s.take(k) =~= s);
    }
}

/// Read sign and magnitude from a text; `None` when the text is not of the accepted
/// form or when the magnitude exceeds `limit`.
fn sign_and_magnitude_exec(cs: &[char], signed: bool, limit: u128) -> (r: Option<(bool, u128)>)
    ensures
        match r {
            Some((neg, m)) => sign_and_magnitude(cs@, signed) == Some((neg, m as nat)) && m
                <= limit,
            None => match sign_and_magnitude(cs@, signed) {
                Some((_, m)) => m > limit,
                None => true,
            },
        },
{
    let n = cs.len();
    let negative = signed && n > 0 && cs[0] == '-';
    let start: usize = if n > 0 && (cs[0] == '+' || negative) {
        1
    } else {
        0
    };
    let ghost digits = cs@.skip(start as int);
    assert(start == 1 ==> digits =~= cs@.drop_first());
    assert(start == 0 ==> digits =~= cs@);
    assert(sign_and_magnitude(cs@, signed) == if digits.len() > 0 && all_digits(digits) {
        Some((negative, digits_value(digits)))
    } else {
        None
    });
    if start >= n {
        return None;
    }
    let mut acc: u128 = 0;
    let mut i: usize = start;
    while i < n
        invariant
            n == cs@.len(),
            start <= i <= n,
            digits == cs@.skip(start as int),
            all_digits(digits.take(i - start)),
            acc as nat == digits_value(digits.take(i - start)),
            acc <= limit,
            digits.len() == n - start,
            sign_and_magnitude(cs@, signed) == if digits.len() > 0 && all_digits(digits) {
                Some((negative, digits_value(digits)))
            } else {
                None
            },
        decreases n - i,
    {
        let c = cs[i];
        let ghost pre = digits.take(i - start);
        let ghost cur = digits.take(i - start + 1);
        assert(cur.drop_last() =~= pre);
        assert(cur.last() == c);
        if !('0' <= c && c <= '9') {
            assert(!is_digit(digits[i - start]));
            assert(!all_digits(digits));
            return None;
        }
        let d = (c as u32 - '0' as u32) as u128;
        assert(all_digits(cur));
        assert(digits_value(cur) == digits_value(pre) * 10 + d);
        if d > limit || acc > (limit - d) / 10 {
            proof {
                if d <= limit {
                    assert(acc * 10 + d > limit) by (nonlinear_arith)
                        requires
                            acc > (limit - d) / 10,
                            d <= limit,
                    ;
                }
                if all_digits(digits) {
                    lemma_digits_value_prefix(digits, i - start + 1);
                }
            }
            return None;
        }
        proof {
            assert(acc * 10 + d <= limit) by (nonlinear_arith)
                requires
                    acc <= (limit - d) / 10,
                    d <= limit,
            ;
        }
        acc = acc * 10 + d;
        i = i + 1;
    }
    assert(digits.take(n - start) =~= digits);
    Some((negative, acc))
}

/// Parse a character sequence as a `usize`, as `str::parse::<usize>` accepts it.
pub fn parse_usize_chars(cs: &[char]) -> (r: Option<usize>)
    ensures
        r matches Some(v) ==> parse_unsigned(cs@, usize::MAX as nat) == Some(v as nat),
        r is None ==> parse_unsigned(cs@, usize::MAX as nat) is None,
{
    match sign_and_magnitude_exec(cs, false, usize::MAX as u128) {
        Some((_, m)) => Some(m as usize),
        None => None,
    }
}

/// Parse a text as a `u8`, as `str::parse::<u8>` accepts it.
pub fn parse_u8(s: &str) -> (r: Option<u8>)
    ensures
        r matches Some(v) ==> parse_unsigned(s@, u8::MAX as nat) == Some(v as nat),
        r is None ==> parse_unsigned(s@, u8::MAX as nat) is None,
        r == u8_value(s@),
{
    let cs = chars_of(s);
    match sign_and_magnitude_exec(cs.as_slice(), false, u8::MAX as u128) {
        Some((_, m)) => Some(m as u8),
        None => None,
    }
}

/// Parse a text as a `u16`, as `str::parse::<u16>` accepts it.
pub fn parse_u16(s: &str) -> (r: Option<u16>)
    ensures
        r matches Some(v) ==> parse_unsigned(s@, u16::MAX as nat) == Some(v as nat),
        r is None ==> parse_unsigned(s@, u16::MAX as nat) is None,
        r == u16_value(s@),
{
    let cs = chars_of(s);
    match sign_and_magnitude_exec(cs.as_slice(), false, u16::MAX as u128) {
        Some((_, m)) => Some(m as u16),
        None => None,
    }
}

/// Parse a text as a `u32`, as `str::parse::<u32>` accepts it.
pub fn parse_u32(s: &str) -> (r: Option<u32>)
    ensures
        r matches Some(v) ==> parse_unsigned(s@, u32::MAX as nat) == Some(v as nat),
        r is None ==> parse_unsigned(s@, u32::MAX as nat) is None,
        r == u32_value(s@),
{
    let cs = chars_of(s);
    match sign_and_magnitude_exec(cs.as_slice(), false, u32::MAX as u128) {
        Some((_, m)) => Some(m as u32),
        None => None,
    }
}

/// Parse a text as a `u64`, as `str::parse::<u64>` accepts it.
pub fn parse_u64(s: &str) -> (r: Option<u64>)
    ensures
        r matches Some(v) ==> parse_unsigned(s@, u64::MAX as nat) == Some(v as nat),
        r is None ==> parse_unsigned(s@, u64::MAX as nat) is None,
        r == u64_value(s@),
{
    let cs = chars_of(s);
    match sign_and_magnitude_exec(cs.as_slice(), false, u64::MAX as u128) {
        Some((_, m)) => Some(m as u64),
        None => None,
    }
}

/// Parse a text as a `usize`, as `str::parse::<usize>` accepts it.
pub fn parse_usize(s: &str) -> (r: Option<usize>)
    ensures
        r matches Some(v) ==> parse_unsigned(s@, usize::MAX as nat) == Some(v as nat),
        r is None ==> parse_unsigned(s@, usize::MAX as nat) is None,
        r == usize_value(s@),
{
    let cs = chars_of(s);
    match sign_and_magnitude_exec(cs.as_slice(), false, usize::MAX as u128) {
        Some((_, m)) => Some(m as usize),
        None => None,
    }
}

/// Parse a text as an `i64`, as `str::parse::<i64>` accepts it.
pub fn parse_i64(s: &str) -> (r: Option<i64>)
    ensures
        r matches Some(v) ==> parse_signed(s@, i64::MIN as int, i64::MAX as int) == Some(
            v as int,
        ),
        r is None ==> parse_signed(s@, i64::MIN as int, i64::MAX as int) is None,
        r == i64_value(s@),
{
    let cs = chars_of(s);
    match sign_and_magnitude_exec(cs.as_slice(), true, 0x8000_0000_0000_0000u128) {
        Some((neg, m)) => {
            if neg {
                if m == 0x8000_0000_0000_0000u128 {
                    Some(i64::MIN)
                } else {
                    Some(-(m as i64))
                }
            } else if m <= i64::MAX as u128 {
                Some(m as i64)
            } else {
                None
            }
        },
        None => None,
    }
}

/// A text read as a narrower unsigned type reads as a wider one with the same value.
pub proof fn law_unsigned_widening(s: Seq<char>)
    ensures
        u8_value(s) matches Some(v) ==> u16_value(s) == Some(v as u16),
        u16_value(s) matches Some(v) ==> u32_value(s) == Some(v as u32),
        u32_value(s) matches Some(v) ==> u64_value(s) == Some(v as u64),
{
}

/// A text read as a `u64` inside the range of `i64` reads as an `i64` with the same value.
pub proof fn law_unsigned_reads_signed(s: Seq<char>)
    ensures
        u64_value(s) is Some && u64_value(s)->0 <= i64::MAX ==> i64_value(s) == Some(
            u64_value(s)->0 as i64,
        ),
{
}

} // verus!
