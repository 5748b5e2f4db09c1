//! Decimal text handling: parsing signed integers from spreadsheet cells
//! and rendering integers back into decimal strings for request bodies.

use vstd::prelude::*;

verus! {

/// True of the ten ASCII decimal digit characters.
pub open spec fn is_digit_char(c: char) -> bool {
    '0' <= c && c <= '9'
}

/// Numeric value of one decimal digit character.
pub open spec fn digit_val(c: char) -> int {
    c as int - '0' as int
}

/// True when every character of `s` is a decimal digit.
pub open spec fn all_digits(s: Seq<char>) -> bool {
    forall|i: int| 0 <= i < s.len() ==> is_digit_char(#[trigger] s[i])
}

/// Value of a digit string read in base ten; the empty string reads as zero.
pub open spec fn digits_val(s: Seq<char>) -> int
    decreases s.len(),
{
    if s.len() == 0 {
        0
    } else {
        digits_val(s.drop_last()) * 10 + digit_val(s.last())
    }
}

pub proof fn lemma_digits_val_nonneg(s: Seq<char>)
    requires
        all_digits(s),
    ensures
        digits_val(s) >= 0,
    decreases s.len(),
{
    if s.len() > 0 {
        assert(all_digits(s.drop_last()));
        lemma_digits_val_nonneg(s.drop_last());
    }
}

/// A digit string is worth at least any of its prefixes.
pub proof fn lemma_digits_val_prefix_le(s: Seq<char>, i: int)
    requires
        all_digits(s),
        0 <= i <= s.len(),
    ensures
        digits_val(s.take(i)) <= digits_val(s),
    decreases s.len() - i,
{
    if i < s.len() {
        lemma_digits_val_prefix_le(s, i + 1);
        assert(s.take(i + 1).drop_last() =~= s.take(i));
        assert(s.take(i + 1).last() == s[i]);
        lemma_digits_val_nonneg(s.take(i));
        assert(digits_val(s.take(i + 1)) == digits_val(s.take(i)) * 10 + digit_val(s[i]));
    } else {
        assert(s.take(i) =~= s);
    }
}

/// True when `s` is exactly what `i64` accepts as decimal text: an optional
/// sign, then one or more digits, with the value in range.
pub open spec fn is_i64_string(s: Seq<char>) -> bool {
    if s.len() == 0 {
        false
    } else if s[0] == '-' {
        s.len() > 1 && all_digits(s.skip(1)) && digits_val(s.skip(1)) <= 0x8000_0000_0000_0000
    } else if s[0] == '+' {
        s.len() > 1 && all_digits(s.skip(1)) && digits_val(s.skip(1)) <= i64::MAX as int
    } else {
        all_digits(s) && digits_val(s) <= i64::MAX as int
    }
}

/// Value denoted by a decimal `i64` string.
pub open spec fn i64_string_val(s: Seq<char>) -> int {
    if s.len() > 0 && s[0] == '-' {
        -digits_val(s.skip(1))
    } else if s.len() > 0 && s[0] == '+' {
        digits_val(s.skip(1))
    } else {
        digits_val(s)
    }
}

/// Parses the digit run `s@.skip(start)` into an unsigned value no greater
/// than `bound`, scanning left to right and stopping as soon as the value
/// can no longer fit.
fn parse_digits_bounded(s: &str, start: usize, bound: u64) -> (r: Option<u64>)
    requires
        start <= s@.len(),
    ensures
        r is Some <==> (start < s@.len() && all_digits(s@.skip(start as int)) && digits_val(
            s@.skip(start as int),
        ) <= bound),
        r matches Some(v) ==> v as int == digits_val(s@.skip(start as int)),
{
    let ghost digits = s@.skip(start as int);
    let n = s.unicode_len();
    if start >= n {
        return None;
    }
    let mut acc: u64 = 0;
    let mut i: usize = start;
    while i < n
        invariant
            start <= i <= n,
            n == s@.len(),
            digits == s@.skip(start as int),
            all_digits(digits.take(i - start)),
            acc as int == digits_val(digits.take(i - start)),
            acc <= bound,
        decreases n - i,
    {
        let c = s.get_char(i);
        if c < '0' || c > '9' {
            proof {
                assert(digits[i - start] == s@[i as int]);
                assert(!is_digit_char(digits[i - start]));
            }
            return None;
        }
        let d: u64 = (c as u32 as u64) - ('0' as u32 as u64);
        proof {
            assert(digits[i - start] == s@[i as int]);
            assert(digits.take(i - start + 1).drop_last() =~= digits.take(i - start));
            assert(digits.take(i - start + 1).last() == digits[i - start]);
            assert(digits_val(digits.take(i - start + 1)) == acc * 10 + d);
        }
        let over_ten = acc > bound / 10;
        proof {
            if !over_ten {
                assert(acc * 10 <= bound) by (nonlinear_arith)
                    requires
                        acc <= bound / 10,
                ;
            }
        }
        if over_ten || d > bound - acc * 10 {
            proof {
                assert(acc * 10 + d > bound) by {
                    if over_ten {
                        assert(acc * 10 > bound) by (nonlinear_arith)
                            requires
                                acc >= bound / 10 + 1,
                        ;
                    }
                }
                assert(all_digits(digits.take(i - start + 1))) by {
                    assert(forall|j: int|
                        0 <= j < i - start + 1 ==> digits.take(i - start + 1)[j] == digits[j]);
                    assert(forall|j: int|
                        0 <= j < i - start ==> digits.take(i - start)[j] == digits[j]);
                }
                if all_digits(digits) {
                    lemma_digits_val_prefix_le(digits, i - start + 1);
                    assert(digits_val(digits) > bound);
                }
            }
            return None;
        }
        acc = acc * 10 + d;
        i = i + 1;
        proof {
            assert(all_digits(digits.take(i - start))) by {
                assert(forall|j: int|
                    0 <= j < i - start ==> digits.take(i - start)[j] == digits[j]);
                assert(forall|j: int|
                    0 <= j < i - start - 1 ==> digits.take(i - start - 1)[j] == digits[j]);
            }
        }
    }
    proof {
        assert(digits.take(n - start) =~= digits);
    }
    Some(acc)
}

/// Parses `s` the way `i64` reads decimal text: an optional `+` or `-`
/// sign followed by one or more digits, rejecting anything else and any
/// value outside the `i64` range.
pub fn parse_i64(s: &str) -> (r: Option<i64>)
    ensures
        r is Some <==> is_i64_string(s@),
        r matches Some(v) ==> v as int == i64_string_val(s@),
{
    let n = s.unicode_len();
    if n == 0 {
        return None;
    }
    let c0 = s.get_char(0);
    if c0 == '-' {
        match parse_digits_bounded(s, 1, 0x8000_0000_0000_0000u64) {
            Some(mag) => {
                let v: i64 = (-(mag as i128)) as i64;
                proof {
                    lemma_digits_val_nonneg(s@.skip(1));
                }
                Some(v)
            },
            None => None,
        }
    } else if c0 == '+' {
        match parse_digits_bounded(s, 1, i64::MAX as u64) {
            Some(mag) => Some(mag as i64),
            None => None,
        }
    } else {
        match parse_digits_bounded(s, 0, i64::MAX as u64) {
            Some(mag) => {
                proof {
                    assert(s@.skip(0) =~= s@);
                }
                Some(mag as i64)
            },
            None => {
                proof {
                    assert(s@.skip(0) =~= s@);
                }
                None
            },
        }
    }
}

/// Decimal rendering of a nonnegative number, most significant digit first.
pub open spec fn dec_rep(n: int) -> Seq<char>
    decreases n,
{
    if n < 0 {
        Seq::empty()
    } else if n < 10 {
        seq![digit_char(n)]
    } else {
        dec_rep(n / 10).push(digit_char(n % 10))
    }
}

/// The digit character for one place value.
pub open spec fn digit_char(d: int) -> char {
    if d == 0 {
        '0'
    } else if d == 1 {
        '1'
    } else if d == 2 {
        '2'
    } else if d == 3 {
        '3'
    } else if d == 4 {
        '4'
    } else if d == 5 {
        '5'
    } else if d == 6 {
        '6'
    } else if d == 7 {
        '7'
    } else if d == 8 {
        '8'
    } else {
        '9'
    }
}

/// Decimal rendering of a possibly negative number: a leading minus sign
/// before the magnitude.
pub open spec fn dec_rep_signed(n: int) -> Seq<char> {
    if n < 0 {
        seq!['-'] + dec_rep(-n)
    } else {
        dec_rep(n)
    }
}

/// One-character string for one digit value.
fn digit_str(d: u64) -> (r: &'static str)
    requires
        d < 10,
    ensures
        r@ == seq![digit_char(d as int)],
{
    proof {
        reveal_strlit("0");
        reveal_strlit("1");
        reveal_strlit("2");
        reveal_strlit("3");
        reveal_strlit("4");
        reveal_strlit("5");
        reveal_strlit("6");
        reveal_strlit("7");
        reveal_strlit("8");
        reveal_strlit("9");
    }
    if d == 0 {
        "0"
    } else if d == 1 {
        "1"
    } else if d == 2 {
        "2"
    } else if d == 3 {
        "3"
    } else if d == 4 {
        "4"
    } else if d == 5 {
        "5"
    } else if d == 6 {
        "6"
    } else if d == 7 {
        "7"
    } else if d == 8 {
        "8"
    } else {
        "9"
    }
}

/// Renders an unsigned number in decimal.
pub fn u64_to_string(n: u64) -> (r: String)
    ensures
        r@ == dec_rep(n as int),
    decreases n,
{
    if n < 10 {
        String::from_str(digit_str(n))
    } else {
        let mut s = u64_to_string(n / 10);
        s.append(digit_str(n % 10));
        proof {
            assert(dec_rep(n as int) == dec_rep(n as int / 10).push(digit_char(n as int % 10)));
            assert(dec_rep(n as int / 10) + seq![digit_char(n as int % 10)] =~= dec_rep(
                n as int,
            ));
        }
        s
    }
}

/// Renders a signed number in decimal, with a leading minus sign when
/// negative.
pub fn i64_to_string(n: i64) -> (r: String)
    ensures
        r@ == dec_rep_signed(n as int),
{
    if n >= 0 {
        u64_to_string(n as u64)
    } else {
        let mag: u64 = (-(n as i128)) as u64;
        let mut s = String::from_str("-");
        proof {
            reveal_strlit("-");
        }
        s.append(u64_to_string(mag).as_str());
        proof {
            assert(seq!['-'] + dec_rep(mag as int) =~= dec_rep_signed(n as int));
        }
        s
    }
}

} // verus!
