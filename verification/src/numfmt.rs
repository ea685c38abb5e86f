//! Decimal rendering of integers, against a digit-sequence specification.

use vstd::prelude::*;
use vstd::string::StringExecFns;

verus! {

/// The decimal digit character for `d` in `0..10`.
pub open spec fn spec_digit_char(d: int) -> char
    recommends
        0 <= d < 10,
{
    if d == 0 {
        '0'
    } else if d == 1 {
        '1'
    } else if d == 2 {
        '2'
    } else if d == 3 {
        '3'
    } else if d == 4 {
        '4'
    } else if d == 5 {
        '5'
    } else if d == 6 {
        '6'
    } else if d == 7 {
        '7'
    } else if d == 8 {
        '8'
    } else {
        '9'
    }
}

/// The decimal digits of a non-negative integer, most significant first,
/// without leading zeros (zero itself is `"0"`).
pub open spec fn spec_nat_digits(n: int) -> Seq<char>
    recommends
        n >= 0,
    decreases n,
{
    if n < 10 {
        seq![spec_digit_char(n)]
    } else {
        spec_nat_digits(n / 10).push(spec_digit_char(n % 10))
    }
}

/// The decimal text of an integer: a minus sign before the digits of the
/// magnitude when negative.
pub open spec fn spec_int_digits(n: int) -> Seq<char> {
    if n < 0 {
        seq!['-'] + spec_nat_digits(-n)
    } else {
        spec_nat_digits(n)
    }
}

fn digit_str(d: u64) -> (r: &'static str)
    requires
        d < 10,
    ensures
        r@ == seq![spec_digit_char(d as int)],
{
    proof {
        reveal_strlit("0");
        reveal_strlit("1");
        reveal_strlit("2");
        reveal_strlit("3");
        reveal_strlit("4");
        reveal_strlit("5");
        reveal_strlit("6");
        reveal_strlit("7");
        reveal_strlit("8");
        reveal_strlit("9");
    }
    let r: &'static str = if d == 0 {
        "0"
    } else if d == 1 {
        "1"
    } else if d == 2 {
        "2"
    } else if d == 3 {
        "3"
    } else if d == 4 {
        "4"
    } else if d == 5 {
        "5"
    } else if d == 6 {
        "6"
    } else if d == 7 {
        "7"
    } else if d == 8 {
        "8"
    } else {
        "9"
    };
    proof {
        assert(r@ =~= seq![spec_digit_char(d as int)]);
    }
    r
}

/// The decimal text of `n`.
pub fn u64_string(n: u64) -> (r: String)
    ensures
        r@ == spec_nat_digits(n as int),
    decreases n,
{
    if n < 10 {
        digit_str(n).to_owned()
    } else {
        let mut s = u64_string(n / 10);
        s.append(digit_str(n % 10));
        proof {
            assert(spec_nat_digits((n / 10) as int) + seq![spec_digit_char((n % 10) as int)]
                =~= spec_nat_digits((n / 10) as int).push(spec_digit_char((n % 10) as int)));
        }
        s
    }
}

/// The decimal text of `n`, signed.
pub fn i64_string(n: i64) -> (r: String)
    ensures
        r@ == spec_int_digits(n as int),
{
    if n >= 0 {
        u64_string(n as u64)
    } else {
        let m: u64 = (-(n as i128)) as u64;
        let digits = u64_string(m);
        let mut s: String = "-".to_owned();
        s.append(digits.as_str());
        proof {
            reveal_strlit("-");
            assert("-"@ =~= seq!['-']);
        }
        s
    }
}

} // verus!
