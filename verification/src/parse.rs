//! Parsing decimal integers from raw bytes.
//!
//! The numeric command-line options take a decimal integer: an optional `+`
//! or `-` sign followed by at least one ASCII digit, with the value in the
//! range of `i32`. Anything else is rejected.

use vstd::prelude::*;

verus! {

/// The byte is an ASCII decimal digit.
pub open spec fn is_dec_digit(b: u8) -> bool {
    48 <= b <= 57
}

/// Every byte of the sequence is an ASCII decimal digit.
pub open spec fn all_dec_digits(s: Seq<u8>) -> bool {
    forall|i: int| 0 <= i < s.len() ==> is_dec_digit(s[i])
}

/// The number denoted by a sequence of digit bytes, read in base ten.
pub open spec fn dec_value(s: Seq<u8>) -> int
    decreases s.len(),
{
    if s.len() == 0 {
        0
    } else {
        10 * dec_value(s.drop_last()) + (s.last() - 48)
    }
}

/// The sequence opens with a sign byte, `+` or `-`.
pub open spec fn has_sign(s: Seq<u8>) -> bool {
    s.len() > 0 && (s[0] == 43u8 || s[0] == 45u8)
}

/// The sequence without its sign byte, if it has one.
pub open spec fn digit_part(s: Seq<u8>) -> Seq<u8> {
    if has_sign(s) {
        s.subrange(1, s.len() as int)
    } else {
        s
    }
}

/// What the bytes denote as an `i32`: `None` unless they are an optional
/// sign followed by one or more digits whose value fits in `i32`.
pub open spec fn parsed_i32(s: Seq<u8>) -> Option<int> {
    let digits = digit_part(s);
    if digits.len() == 0 || !all_dec_digits(digits) {
        None
    } else {
        let v = if s.len() > 0 && s[0] == 45u8 {
            -dec_value(digits)
        } else {
            dec_value(digits)
        };
        if i32::MIN <= v <= i32::MAX {
            Some(v)
        } else {
            None
        }
    }
}

/// A digit string never denotes a negative number.
proof fn lemma_dec_value_nonneg(s: Seq<u8>)
    requires
        all_dec_digits(s),
    ensures
        dec_value(s) >= 0,
    decreases s.len(),
{
    if s.len() > 0 {
        assert(all_dec_digits(s.drop_last()));
        lemma_dec_value_nonneg(s.drop_last());
    }
}

/// Reading more digits never shrinks the value: any prefix of a digit string
/// denotes at most what the whole string denotes.
proof fn lemma_dec_value_prefix_le(s: Seq<u8>, k: int)
    requires
        all_dec_digits(s),
        0 <= k <= s.len(),
    ensures
        dec_value(s.subrange(0, k)) <= dec_value(s),
    decreases s.len() - k,
{
    if k == s.len() {
        assert(s.subrange(0, k) =~= s);
    } else {
        let shorter = s.subrange(0, k);
        let longer = s.subrange(0, k + 1);
        assert(longer.drop_last() =~= shorter);
        assert(all_dec_digits(shorter));
        lemma_dec_value_nonneg(shorter);
        assert(is_dec_digit(s[k]));
        assert(dec_value(longer) == 10 * dec_value(shorter) + (longer.last() - 48));
        lemma_dec_value_prefix_le(s, k + 1);
    }
}

/// Parse the bytes as a decimal `i32`: an optional `+` or `-` sign followed
/// by one or more ASCII digits, with the value in range. Returns `None` for
/// anything else, including an out-of-range value.
pub fn parse_i32(s: &Vec<u8>) -> (r: Option<i32>)
    ensures
        r matches Some(v) ==> parsed_i32(s@) == Some(v as int),
        r is None ==> parsed_i32(s@) is None,
{
    let n = s.len();
    let mut idx: usize = 0;
    let mut negative = false;
    if n > 0 && (s[0] == 43 || s[0] == 45) {
        negative = s[0] == 45;
        idx = 1;
    }
    let ghost start = idx as int;
    proof {
        if start == 0 {
            assert(s@.subrange(0, s@.len() as int) =~= s@);
        }
        assert(s@.subrange(start, s@.len() as int) =~= digit_part(s@));
    }
    if idx == n {
        proof {
            assert(digit_part(s@).len() == 0);
        }
        return Option::None;
    }
    let mut acc: u64 = 0;
    while idx < n
        invariant
            n == s@.len(),
            start == (if has_sign(s@) {
                1int
            } else {
                0int
            }),
            negative == (s@.len() > 0 && s@[0] == 45u8),
            start <= idx as int <= n,
            start < n,
            all_dec_digits(s@.subrange(start, idx as int)),
            acc == dec_value(s@.subrange(start, idx as int)),
            acc <= 2147483648u64,
        decreases n - idx,
    {
        let b = s[idx];
        if b < 48 || b > 57 {
            proof {
                let digits = digit_part(s@);
                assert(digits =~= s@.subrange(start, s@.len() as int));
                assert(digits[idx - start] == s@[idx as int]);
                assert(!all_dec_digits(digits));
            }
            return Option::None;
        }
        let d = (b - 48) as u64;
        proof {
            let pre = s@.subrange(start, idx as int);
            let post = s@.subrange(start, idx as int + 1);
            assert(post.drop_last() =~= pre);
            assert(post.last() == s@[idx as int]);
        }
        acc = acc * 10 + d;
        idx = idx + 1;
        if acc > 2147483648 {
            proof {
                let digits = digit_part(s@);
                assert(digits =~= s@.subrange(start, s@.len() as int));
                if all_dec_digits(digits) {
                    let consumed = digits.subrange(0, idx - start);
                    assert(consumed =~= s@.subrange(start, idx as int));
                    lemma_dec_value_prefix_le(digits, idx - start);
                    assert(dec_value(digits) >= acc);
                }
            }
            return Option::None;
        }
    }
    proof {
        assert(s@.subrange(start, idx as int) =~= digit_part(s@));
    }
    if negative {
        if acc == 2147483648 {
            return Option::Some(i32::MIN);
        }
        return Option::Some(-(acc as i32));
    }
    if acc > 2147483647 {
        return Option::None;
    }
    Option::Some(acc as i32)
}

} // verus!
