//! Decimal reading of the `season` parameter: an integer numeral is an
//! optional leading `'+'` or `'-'` followed by one or more ASCII digits.
//! Any numeral is recognized, whatever its size; what comes back says
//! whether the value fits in a byte.

use vstd::prelude::*;

verus! {

/// An ASCII decimal digit.
pub open spec fn is_digit(c: char) -> bool {
    48 <= c as int && c as int <= 57
}

/// Numeric value of one ASCII digit.
pub open spec fn digit_val(c: char) -> int {
    c as int - 48
}

/// The numeral opens with a sign character.
pub open spec fn has_sign(s: Seq<char>) -> bool {
    s.len() > 0 && (s[0] == '+' || s[0] == '-')
}

/// The numeral opens with a minus sign.
pub open spec fn is_negative(s: Seq<char>) -> bool {
    s.len() > 0 && s[0] == '-'
}

/// The digit run of a numeral: the whole string, or what follows the
/// single leading sign.
pub open spec fn digits_of(s: Seq<char>) -> Seq<char> {
    if has_sign(s) {
        s.subrange(1, s.len() as int)
    } else {
        s
    }
}

/// Every character of `s` is an ASCII decimal digit.
pub open spec fn all_digits(s: Seq<char>) -> bool {
    forall|i: int| 0 <= i < s.len() ==> is_digit(#[trigger] s[i])
}

/// Value of a digit run read in base ten.
pub open spec fn digits_val(s: Seq<char>) -> int
    decreases s.len(),
{
    if s.len() == 0 {
        0
    } else {
        digits_val(s.drop_last()) * 10 + digit_val(s.last())
    }
}

/// `s` is an integer numeral: a non-empty digit run after the optional
/// sign. Nothing here bounds the value.
pub open spec fn is_int_numeral(s: Seq<char>) -> bool {
    digits_of(s).len() > 0 && all_digits(digits_of(s))
}

/// The integer an integer numeral denotes.
pub open spec fn numeral_val(s: Seq<char>) -> int {
    if is_negative(s) {
        -digits_val(digits_of(s))
    } else {
        digits_val(digits_of(s))
    }
}

/// How a string reads as an integer: not a numeral at all, or a numeral
/// classified by whether its value fits in a byte.
#[derive(Clone, Copy, PartialEq, Eq, Structural, Debug)]
pub enum NumeralReading {
    /// Not an optionally signed run of digits.
    NotNumeral,
    /// A numeral with a negative value.
    Negative,
    /// A numeral whose value exceeds 255.
    TooLarge,
    /// A numeral whose value fits in a byte.
    Value(u8),
}

/// What [`parse_numeral`] returns on a given string.
pub open spec fn read_spec(s: Seq<char>) -> NumeralReading {
    if !is_int_numeral(s) {
        NumeralReading::NotNumeral
    } else if numeral_val(s) < 0 {
        NumeralReading::Negative
    } else if numeral_val(s) > 255 {
        NumeralReading::TooLarge
    } else {
        NumeralReading::Value(numeral_val(s) as u8)
    }
}

/// A digit run's value is never negative.
proof fn lemma_digits_val_nonneg(s: Seq<char>)
    requires
        all_digits(s),
    ensures
        digits_val(s) >= 0,
    decreases s.len(),
{
    if s.len() > 0 {
        assert(all_digits(s.drop_last()));
        lemma_digits_val_nonneg(s.drop_last());
    }
}

/// A digit run's value never goes down when more digits are appended.
proof fn lemma_digits_val_grows(s: Seq<char>, d: char)
    requires
        all_digits(s.push(d)),
    ensures
        digits_val(s.push(d)) >= digits_val(s),
        digits_val(s) > 255 ==> digits_val(s.push(d)) > 255,
        digits_val(s) >= 0,
    decreases s.len(),
{
    assert(s.push(d).drop_last() =~= s);
    assert(s.push(d).last() == d);
    if s.len() > 0 {
        assert(s.drop_last().push(s.last()) =~= s);
        lemma_digits_val_grows(s.drop_last(), s.last());
    }
}

/// Reads a string as an integer numeral and says how its value relates to
/// the byte range.
pub fn parse_numeral(s: &str) -> (r: NumeralReading)
    ensures
        r == read_spec(s@),
{
    let len = s.unicode_len();
    let mut negative = false;
    let mut start: usize = 0;
    if len > 0 {
        let c0 = s.get_char(0);
        if c0 == '+' {
            start = 1;
        } else if c0 == '-' {
            start = 1;
            negative = true;
        }
    }
    proof {
        assert(digits_of(s@) =~= s@.subrange(start as int, len as int));
    }
    if start == len {
        return NumeralReading::NotNumeral;
    }
    let ghost digs = s@.subrange(start as int, len as int);
    let mut i: usize = start;
    // `val` tracks the digit run's value, capped at 256 once it can no
    // longer fit in a `u8`.
    let mut val: u32 = 0;
    while i < len
        invariant
            start <= i <= len,
            len == s@.len(),
            digs == s@.subrange(start as int, len as int),
            digs == digits_of(s@),
            negative == is_negative(s@),
            all_digits(s@.subrange(start as int, i as int)),
            val == if digits_val(s@.subrange(start as int, i as int)) <= 255 {
                digits_val(s@.subrange(start as int, i as int))
            } else {
                256
            },
        decreases len - i,
    {
        let ghost pre = s@.subrange(start as int, i as int);
        let ghost post = s@.subrange(start as int, i + 1 as int);
        let c = s.get_char(i);
        let d = c as u32;
        proof {
            assert(post =~= pre.push(c));
        }
        if d < 48 || d > 57 {
            proof {
                assert(digs[i - start] == c);
                assert(!all_digits(digs));
            }
            return NumeralReading::NotNumeral;
        }
        proof {
            lemma_digits_val_grows(pre, c);
            assert(post.drop_last() =~= pre);
            assert(post.last() == c);
            assert(digits_val(post) == digits_val(pre) * 10 + digit_val(c));
        }
        val = if val <= 255 {
            let t = val * 10 + (d - 48);
            if t > 255 {
                256
            } else {
                t
            }
        } else {
            256
        };
        i = i + 1;
    }
    proof {
        assert(s@.subrange(start as int, i as int) =~= digs);
        lemma_digits_val_nonneg(digs);
    }
    if negative {
        if val == 0 {
            NumeralReading::Value(0)
        } else {
            NumeralReading::Negative
        }
    } else if val > 255 {
        NumeralReading::TooLarge
    } else {
        NumeralReading::Value(val as u8)
    }
}

} // verus!
