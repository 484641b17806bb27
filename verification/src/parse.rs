//! Verified parsing of decimal integer text.
//!
//! The text grammar matches the native primitive parsers: an optional
//! leading `+` (and, for signed targets, `-`), followed by at least one
//! decimal digit; nothing else.  Out-of-range values are rejected, never
//! truncated.

use vstd::prelude::*;

verus! {

/// Whether `c` is a decimal digit.
pub open spec fn is_dec_digit(c: char) -> bool {
    '0' <= c && c <= '9'
}

/// The numeric value of one digit; zero for a non-digit.
pub open spec fn digit_val(c: char) -> nat {
    if is_dec_digit(c) {
        (c as nat - '0' as nat) as nat
    } else {
        0
    }
}

/// Whether `s` is one or more decimal digits and nothing else.
pub open spec fn all_dec_digits(s: Seq<char>) -> bool {
    forall|i: int| 0 <= i < s.len() ==> is_dec_digit(#[trigger] s[i])
}

/// The value of a digit string read in base ten.
pub open spec fn digits_val(s: Seq<char>) -> nat
    decreases s.len(),
{
    if s.len() == 0 {
        0
    } else {
        digits_val(s.drop_last()) * 10 + digit_val(s.last())
    }
}

/// Reading more digits never shrinks the value.
pub proof fn lemma_digits_val_prefix(s: Seq<char>, j: int)
    requires
        0 <= j <= s.len(),
    ensures
        digits_val(s) >= digits_val(s.take(j)),
    decreases s.len(),
{
    if j < s.len() {
        lemma_digits_val_prefix(s.drop_last(), j);
        assert(s.drop_last().take(j) =~= s.take(j));
    } else {
        assert(s.take(j) =~= s);
    }
}

/// The digits of `s` after an optional leading `+`.
pub open spec fn unsigned_body(s: Seq<char>) -> Seq<char> {
    if s.len() > 0 && s[0] == '+' {
        s.skip(1)
    } else {
        s
    }
}

/// Whether `s` is valid text for an unsigned integer no greater than `max`.
pub open spec fn valid_unsigned(s: Seq<char>, max: u64) -> bool {
    let b = unsigned_body(s);
    b.len() > 0 && all_dec_digits(b) && digits_val(b) <= max
}

/// The value of valid unsigned integer text.
pub open spec fn unsigned_val(s: Seq<char>) -> nat {
    digits_val(unsigned_body(s))
}

/// Whether `s` starts with a minus sign.
pub open spec fn signed_is_neg(s: Seq<char>) -> bool {
    s.len() > 0 && s[0] == '-'
}

/// The digits of `s` after an optional leading sign.
pub open spec fn signed_body(s: Seq<char>) -> Seq<char> {
    if s.len() > 0 && (s[0] == '-' || s[0] == '+') {
        s.skip(1)
    } else {
        s
    }
}

/// Whether `s` is valid text for a signed integer whose magnitude is
/// bounded by `neg_max` when negative and by `pos_max` otherwise.
pub open spec fn valid_signed(s: Seq<char>, neg_max: u64, pos_max: u64) -> bool {
    let b = signed_body(s);
    b.len() > 0 && all_dec_digits(b) && digits_val(b) <= if signed_is_neg(s) {
        neg_max as nat
    } else {
        pos_max as nat
    }
}

/// The value of valid signed integer text.
pub open spec fn signed_val(s: Seq<char>) -> int {
    if signed_is_neg(s) {
        -(digits_val(signed_body(s)) as int)
    } else {
        digits_val(signed_body(s)) as int
    }
}

/// Compares two strings character by character.
pub fn str_eq(a: &str, b: &str) -> (r: bool)
    ensures
        r == (a@ == b@),
{
    let na = a.unicode_len();
    let nb = b.unicode_len();
    if na != nb {
        return false;
    }
    let mut i: usize = 0;
    while i < na
        invariant
            0 <= i <= na,
            na == a@.len(),
            na == b@.len(),
            forall|j: int| 0 <= j < i ==> a@[j] == b@[j],
        decreases na - i,
    {
        if a.get_char(i) != b.get_char(i) {
            return false;
        }
        i = i + 1;
    }
    proof {
        assert(a@ =~= b@);
    }
    true
}

/// Parses `s` from position `start` as one or more decimal digits whose
/// value is at most `max`; reports only whether that reading exists, and
/// its value.
fn parse_digits(s: &str, start: usize, max: u64) -> (r: Option<u64>)
    requires
        start <= s@.len(),
    ensures
        match r {
            Some(v) => {
                let b = s@.skip(start as int);
                &&& b.len() > 0
                &&& all_dec_digits(b)
                &&& digits_val(b) <= max
                &&& v == digits_val(b)
            },
            None => {
                let b = s@.skip(start as int);
                !(b.len() > 0 && all_dec_digits(b) && digits_val(b) <= max)
            },
        },
{
    let ghost b = s@.skip(start as int);
    let n = s.unicode_len();
    if start == n {
        return None;
    }
    let mut i: usize = start;
    let mut acc: u64 = 0;
    while i < n
        invariant
            start <= i <= n,
            n == s@.len(),
            b == s@.skip(start as int),
            all_dec_digits(b.take(i - start)),
            acc == digits_val(b.take(i - start)),
            acc <= max,
        decreases n - i,
    {
        let c = s.get_char(i);
        assert(c == b[i - start]);
        if !('0' <= c && c <= '9') {
            assert(!is_dec_digit(b[i - start]));
            return None;
        }
        let d: u64 = ((c as u32) - 48) as u64;
        assert(d == digit_val(b[i - start]));
        assert(b.take(i - start + 1).drop_last() =~= b.take(i - start));
        assert(b.take(i - start + 1).last() == b[i - start]);
        if acc > max / 10 || (acc == max / 10 && d > max % 10) {
            proof {
                assert(digits_val(b.take(i - start + 1)) == acc * 10 + d);
                assert(acc * 10 + d > max) by {
                    assert(max == (max / 10) * 10 + max % 10);
                };
                lemma_digits_val_prefix(b, i - start + 1);
            }
            return None;
        }
        proof {
            assert(acc * 10 + d <= max) by {
                assert(max == (max / 10) * 10 + max % 10);
                assert(acc <= max / 10);
                if acc < max / 10 {
                    assert(acc * 10 <= (max / 10) * 10 - 10) by (nonlinear_arith)
                        requires
                            acc < max / 10,
                    ;
                }
            };
        }
        acc = acc * 10 + d;
        i = i + 1;
    }
    assert(b.take(i - start) =~= b);
    Some(acc)
}

/// Parses `s` as an unsigned integer no greater than `max`: an optional
/// leading `+`, then digits.
pub fn parse_unsigned(s: &str, max: u64) -> (r: Option<u64>)
    ensures
        match r {
            Some(v) => valid_unsigned(s@, max) && v == unsigned_val(s@),
            None => !valid_unsigned(s@, max),
        },
{
    let n = s.unicode_len();
    if n > 0 && s.get_char(0) == '+' {
        assert(unsigned_body(s@) =~= s@.skip(1));
        parse_digits(s, 1, max)
    } else {
        assert(unsigned_body(s@) =~= s@.skip(0));
        parse_digits(s, 0, max)
    }
}

/// Parses `s` as a signed integer: an optional leading `-` or `+`, then
/// digits; the magnitude is bounded by `neg_max` when negative and by
/// `pos_max` otherwise.
pub fn parse_signed(s: &str, neg_max: u64, pos_max: u64) -> (r: Option<i64>)
    requires
        neg_max <= 0x8000000000000000,
        pos_max <= 0x7fffffffffffffff,
    ensures
        match r {
            Some(v) => valid_signed(s@, neg_max, pos_max) && v as int == signed_val(s@),
            None => !valid_signed(s@, neg_max, pos_max),
        },
{
    let n = s.unicode_len();
    if n > 0 && s.get_char(0) == '-' {
        assert(signed_body(s@) =~= s@.skip(1));
        match parse_digits(s, 1, neg_max) {
            Some(mag) => {
                if mag >= 0x8000000000000000 {
                    Some(i64::MIN)
                } else {
                    Some(-(mag as i64))
                }
            },
            None => None,
        }
    } else if n > 0 && s.get_char(0) == '+' {
        assert(signed_body(s@) =~= s@.skip(1));
        match parse_digits(s, 1, pos_max) {
            Some(mag) => Some(mag as i64),
            None => None,
        }
    } else {
        assert(signed_body(s@) =~= s@.skip(0));
        assert(s@.skip(0) =~= s@);
        match parse_digits(s, 0, pos_max) {
            Some(mag) => Some(mag as i64),
            None => None,
        }
    }
}

} // verus!
