//! Rendering of machine integers as decimal text.
//!
//! Pattern-matching operators compare against the textual form of an
//! operand, so the compiler needs a verified way to turn an integer into
//! its decimal representation.

use vstd::prelude::*;
use vstd::string::StringExecFns;

verus! {

/// The character for a single decimal digit.
pub open spec fn decimal_digit(d: nat) -> char
    recommends
        d < 10,
{
    if d == 0 {
        '0'
    } else if d == 1 {
        '1'
    } else if d == 2 {
        '2'
    } else if d == 3 {
        '3'
    } else if d == 4 {
        '4'
    } else if d == 5 {
        '5'
    } else if d == 6 {
        '6'
    } else if d == 7 {
        '7'
    } else if d == 8 {
        '8'
    } else {
        '9'
    }
}

/// Decimal digits of a natural number, most significant first, no leading
/// zeros except for the number zero itself.
pub open spec fn nat_decimal(n: nat) -> Seq<char>
    decreases n,
{
    if n < 10 {
        seq![decimal_digit(n)]
    } else {
        nat_decimal(n / 10).push(decimal_digit(n % 10))
    }
}

/// Decimal text of an integer: a leading minus sign for negative numbers,
/// then the digits of the magnitude.
pub open spec fn int_decimal(i: int) -> Seq<char> {
    if i < 0 {
        seq!['-'] + nat_decimal((-i) as nat)
    } else {
        nat_decimal(i as nat)
    }
}

fn decimal_digit_text(d: u64) -> (s: &'static str)
    requires
        d < 10,
    ensures
        s@ == seq![decimal_digit(d as nat)],
{
    let s: &'static str = if d == 0 {
        "0"
    } else if d == 1 {
        "1"
    } else if d == 2 {
        "2"
    } else if d == 3 {
        "3"
    } else if d == 4 {
        "4"
    } else if d == 5 {
        "5"
    } else if d == 6 {
        "6"
    } else if d == 7 {
        "7"
    } else if d == 8 {
        "8"
    } else {
        "9"
    };
    proof {
        reveal_strlit("0");
        reveal_strlit("1");
        reveal_strlit("2");
        reveal_strlit("3");
        reveal_strlit("4");
        reveal_strlit("5");
        reveal_strlit("6");
        reveal_strlit("7");
        reveal_strlit("8");
        reveal_strlit("9");
        assert(s@ =~= seq![decimal_digit(d as nat)]);
    }
    s
}

/// Decimal rendering of an unsigned 64-bit integer.
pub fn u64_decimal(n: u64) -> (s: String)
    ensures
        s@ == nat_decimal(n as nat),
    decreases n,
{
    if n < 10 {
        let s = String::from_str(decimal_digit_text(n));
        proof {
            assert(s@ =~= nat_decimal(n as nat));
        }
        s
    } else {
        let mut s = u64_decimal(n / 10);
        s.append(decimal_digit_text(n % 10));
        proof {
            assert(s@ =~= nat_decimal(n as nat));
        }
        s
    }
}

/// Decimal rendering of a signed 64-bit integer.
pub fn i64_decimal(n: i64) -> (s: String)
    ensures
        s@ == int_decimal(n as int),
{
    if n >= 0 {
        let s = u64_decimal(n as u64);
        s
    } else {
        let mag: u64 = if n == i64::MIN {
            9223372036854775808
        } else {
            (-n) as u64
        };
        proof {
            assert(mag as nat == (-(n as int)) as nat);
        }
        let mut s = String::from_str("-");
        let digits = u64_decimal(mag);
        s.append(digits.as_str());
        proof {
            reveal_strlit("-");
            assert(s@ =~= int_decimal(n as int));
        }
        s
    }
}

/// Decimal rendering of a signed 32-bit integer.
pub fn i32_decimal(n: i32) -> (s: String)
    ensures
        s@ == int_decimal(n as int),
{
    i64_decimal(n as i64)
}

} // verus!
