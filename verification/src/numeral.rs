//! Decimal numeral text: parsing and formatting of signed integers, used by
//! the octave and MIDI-note text forms.

use vstd::prelude::*;
use vstd::arithmetic::div_mod::{
    lemma_fundamental_div_mod, lemma_mod_division_less_than_divisor, lemma_remainder_lower,
};
use vstd::string::*;

verus! {

/// Whether `c` is an ASCII decimal digit.
pub open spec fn is_digit(c: char) -> bool {
    48 <= c as int <= 57
}

/// The numeric value of an ASCII digit character.
pub open spec fn digit_val(c: char) -> int {
    c as int - 48
}

/// Whether every character of `s` is an ASCII decimal digit.
pub open spec fn all_digits(s: Seq<char>) -> bool {
    forall|i: int| 0 <= i < s.len() ==> is_digit(#[trigger] s[i])
}

/// The value of a digit string read most-significant first. Leading zeros
/// are permitted and carry no value.
pub open spec fn digits_value(s: Seq<char>) -> int
    decreases s.len(),
{
    if s.len() == 0 {
        0
    } else {
        digits_value(s.drop_last()) * 10 + digit_val(s.last())
    }
}

/// The signed integer denoted by `s`: an optional `+` or `-` sign followed
/// by at least one digit, and nothing else.
pub open spec fn int_text_value(s: Seq<char>) -> Option<int> {
    if s.len() > 0 && (s[0] == '-' || s[0] == '+') {
        let t = s.subrange(1, s.len() as int);
        if t.len() > 0 && all_digits(t) {
            if s[0] == '-' {
                Some(-digits_value(t))
            } else {
                Some(digits_value(t))
            }
        } else {
            None
        }
    } else if s.len() > 0 && all_digits(s) {
        Some(digits_value(s))
    } else {
        None
    }
}

/// The signed integer denoted by `s` when it lies in `lo..=hi`; a
/// well-formed numeral outside that range is rejected like a malformed one.
pub open spec fn int_text_value_in(s: Seq<char>, lo: int, hi: int) -> Option<i128> {
    match int_text_value(s) {
        Some(v) => if lo <= v <= hi {
            Some(v as i128)
        } else {
            None
        },
        None => None,
    }
}

/// A digit string never denotes a negative value.
proof fn lemma_digits_value_nonneg(s: Seq<char>)
    requires
        all_digits(s),
    ensures
        digits_value(s) >= 0,
    decreases s.len(),
{
    if s.len() > 0 {
        lemma_digits_value_nonneg(s.drop_last());
    }
}

/// Extending a digit string can only grow its value: the value of a prefix
/// is a lower bound for the value of the whole.
proof fn lemma_digits_value_prefix(s: Seq<char>, i: int)
    requires
        all_digits(s),
        0 <= i <= s.len(),
    ensures
        digits_value(s.subrange(0, i)) <= digits_value(s),
    decreases s.len(),
{
    if i == s.len() {
        assert(s.subrange(0, i) =~= s);
    } else {
        let d = s.drop_last();
        assert(s.subrange(0, i) =~= d.subrange(0, i));
        lemma_digits_value_prefix(d, i);
        lemma_digits_value_nonneg(d);
    }
}

/// The exact decision for whether appending a digit would push an
/// accumulated value past a limit: `10 * acc + d > limit` exactly when
/// `acc` exceeds `limit / 10`, or reaches it with `d` past `limit % 10`.
proof fn lemma_limit_step(acc: int, d: int, limit: int)
    requires
        0 <= acc,
        0 <= d <= 9,
        0 <= limit,
    ensures
        (10 * acc + d > limit) <==> (acc > limit / 10 || (acc == limit / 10 && d > limit % 10)),
{
    lemma_fundamental_div_mod(limit, 10);
    lemma_mod_division_less_than_divisor(limit, 10);
    lemma_remainder_lower(limit, 10);
}

/// Parse `s` as a signed decimal integer, accepting exactly the values in
/// `lo..=hi`. Rejects empty text, a bare sign, any non-digit after the
/// sign, and any value outside the range.
pub(crate) fn parse_int_in(s: &str, lo: i128, hi: i128) -> (r: Option<i128>)
    requires
        lo <= 0 <= hi,
        -(i128::MAX as int) <= lo as int,
    ensures
        r == int_text_value_in(s@, lo as int, hi as int),
{
    let n = s.unicode_len();
    if n == 0 {
        return None;
    }
    let c0 = s.get_char(0);
    let neg: bool = c0 == '-';
    let signed: bool = neg || c0 == '+';
    let start: usize = if signed {
        1
    } else {
        0
    };
    if start == n {
        // a bare sign with no digits after it
        return None;
    }
    let limit: u128 = if neg {
        (-lo) as u128
    } else {
        hi as u128
    };
    let ghost t = s@.subrange(start as int, s@.len() as int);
    let mut acc: u128 = 0;
    let mut i: usize = start;
    while i < n
        invariant
            start <= i <= n,
            n == s@.len(),
            start == if signed { 1int } else { 0int },
            signed == (s@[0] == '-' || s@[0] == '+'),
            neg == (s@.len() > 0 && s@[0] == '-'),
            t == s@.subrange(start as int, s@.len() as int),
            t.len() == n - start > 0,
            all_digits(t.subrange(0, i - start)),
            acc == digits_value(t.subrange(0, i - start)),
            acc <= limit,
            limit == if neg {
                -(lo as int)
            } else {
                hi as int
            },
            lo <= 0 <= hi,
            -(i128::MAX as int) <= lo as int,
        decreases n - i,
    {
        let c = s.get_char(i);
        proof {
            assert(t[i - start] == s@[i as int]);
        }
        let u: u32 = c as u32;
        if u < 48 || u > 57 {
            // a non-digit after the sign: not a numeral at all
            proof {
                assert(!is_digit(t[i - start]));
            }
            return None;
        }
        let d: u128 = (u - 48) as u128;
        proof {
            assert(d == digit_val(t[i - start]));
        }
        if acc > limit / 10 || (acc == limit / 10 && d > limit % 10) {
            // the digits so far already take the value past the limit, and
            // further digits can only grow it
            proof {
                lemma_limit_step(acc as int, d as int, limit as int);
                let p = t.subrange(0, i + 1 - start);
                assert(p.drop_last() =~= t.subrange(0, i - start));
                assert(p.last() == t[i - start]);
                assert(digits_value(p) == 10 * acc + d);
                if start == 0 {
                    assert(t =~= s@);
                }
                if all_digits(t) {
                    lemma_digits_value_prefix(t, i + 1 - start);
                    assert(digits_value(t) > limit);
                }
            }
            return None;
        }
        proof {
            lemma_limit_step(acc as int, d as int, limit as int);
            let p = t.subrange(0, i + 1 - start);
            assert(p.drop_last() =~= t.subrange(0, i - start));
            assert(p.last() == t[i - start]);
            assert(digits_value(p) == 10 * acc + d);
        }
        acc = 10 * acc + d;
        i = i + 1;
    }
    proof {
        assert(t.subrange(0, i - start) =~= t);
        if start == 0 {
            assert(t =~= s@);
        }
    }
    if neg {
        Some(-(acc as i128))
    } else {
        Some(acc as i128)
    }
}

/// The character of a single decimal digit.
pub open spec fn digit_char(d: int) -> char {
    if d == 0 {
        '0'
    } else if d == 1 {
        '1'
    } else if d == 2 {
        '2'
    } else if d == 3 {
        '3'
    } else if d == 4 {
        '4'
    } else if d == 5 {
        '5'
    } else if d == 6 {
        '6'
    } else if d == 7 {
        '7'
    } else if d == 8 {
        '8'
    } else {
        '9'
    }
}

/// The decimal digit string of a non-negative integer, without sign or
/// leading zeros.
pub open spec fn dec_digits(n: nat) -> Seq<char>
    decreases n,
{
    if n < 10 {
        seq![digit_char(n as int)]
    } else {
        dec_digits(n / 10).push(digit_char((n % 10) as int))
    }
}

/// The decimal text of a signed integer: a leading `-` for negatives, then
/// the digits of its magnitude.
pub open spec fn int_text(v: int) -> Seq<char> {
    if v < 0 {
        seq!['-'] + dec_digits((-v) as nat)
    } else {
        dec_digits(v as nat)
    }
}

/// The one-character text of a single decimal digit.
fn digit_str(d: u128) -> (r: &'static str)
    requires
        d < 10,
    ensures
        r@ == seq![digit_char(d as int)],
{
    proof {
        reveal_strlit("0");
        reveal_strlit("1");
        reveal_strlit("2");
        reveal_strlit("3");
        reveal_strlit("4");
        reveal_strlit("5");
        reveal_strlit("6");
        reveal_strlit("7");
        reveal_strlit("8");
        reveal_strlit("9");
        assert("0"@ =~= seq![digit_char(0)]);
        assert("1"@ =~= seq![digit_char(1)]);
        assert("2"@ =~= seq![digit_char(2)]);
        assert("3"@ =~= seq![digit_char(3)]);
        assert("4"@ =~= seq![digit_char(4)]);
        assert("5"@ =~= seq![digit_char(5)]);
        assert("6"@ =~= seq![digit_char(6)]);
        assert("7"@ =~= seq![digit_char(7)]);
        assert("8"@ =~= seq![digit_char(8)]);
        assert("9"@ =~= seq![digit_char(9)]);
    }
    if d == 0 {
        "0"
    } else if d == 1 {
        "1"
    } else if d == 2 {
        "2"
    } else if d == 3 {
        "3"
    } else if d == 4 {
        "4"
    } else if d == 5 {
        "5"
    } else if d == 6 {
        "6"
    } else if d == 7 {
        "7"
    } else if d == 8 {
        "8"
    } else {
        "9"
    }
}

/// The decimal digit string of a non-negative integer.
fn nat_text(n: u128) -> (r: String)
    ensures
        r@ == dec_digits(n as nat),
    decreases n,
{
    if n < 10 {
        String::from_str(digit_str(n))
    } else {
        let q = nat_text(n / 10);
        let r = q.concat(digit_str(n % 10));
        proof {
            assert(r@ =~= dec_digits((n / 10) as nat).push(digit_char((n % 10) as int)));
        }
        r
    }
}

/// The decimal text of a signed integer.
pub(crate) fn int_text_of(v: i128) -> (r: String)
    requires
        -(i128::MAX as int) <= v as int,
    ensures
        r@ == int_text(v as int),
{
    if v < 0 {
        proof {
            reveal_strlit("-");
        }
        let mut out = String::from_str("-");
        let digits = nat_text((-v) as u128);
        out.append(digits.as_str());
        proof {
            assert(out@ =~= int_text(v as int));
        }
        out
    } else {
        nat_text(v as u128)
    }
}

} // verus!
