//! Decimal rendering of integers: the text form of an integer attribute in an
//! exported matrix, defined by a spec function and implemented exactly.

use vstd::prelude::*;
use vstd::string::StringExecFns;

verus! {

/// The character for one decimal digit.
pub open spec fn spec_dec_digit(d: int) -> char {
    if d == 0 {
        '0'
    } else if d == 1 {
        '1'
    } else if d == 2 {
        '2'
    } else if d == 3 {
        '3'
    } else if d == 4 {
        '4'
    } else if d == 5 {
        '5'
    } else if d == 6 {
        '6'
    } else if d == 7 {
        '7'
    } else if d == 8 {
        '8'
    } else {
        '9'
    }
}

/// The decimal text of a natural number: most significant digit first,
/// no leading zeros except for the number zero itself.
pub open spec fn spec_dec_nat(n: nat) -> Seq<char>
    decreases n,
{
    if n < 10 {
        seq![spec_dec_digit(n as int)]
    } else {
        spec_dec_nat(n / 10) + seq![spec_dec_digit((n % 10) as int)]
    }
}

/// The decimal text of a signed integer: a leading minus sign for
/// negative values, and the digits of the magnitude.
pub open spec fn spec_dec_int(i: int) -> Seq<char> {
    if i < 0 {
        seq!['-'] + spec_dec_nat((-i) as nat)
    } else {
        spec_dec_nat(i as nat)
    }
}

/// The one-character string for a decimal digit.
fn dec_digit_str(d: u64) -> (r: &'static str)
    requires
        d < 10,
    ensures
        r@ == seq![spec_dec_digit(d as int)],
{
    if d == 0 {
        proof {
            reveal_strlit("0");
        }
        "0"
    } else if d == 1 {
        proof {
            reveal_strlit("1");
        }
        "1"
    } else if d == 2 {
        proof {
            reveal_strlit("2");
        }
        "2"
    } else if d == 3 {
        proof {
            reveal_strlit("3");
        }
        "3"
    } else if d == 4 {
        proof {
            reveal_strlit("4");
        }
        "4"
    } else if d == 5 {
        proof {
            reveal_strlit("5");
        }
        "5"
    } else if d == 6 {
        proof {
            reveal_strlit("6");
        }
        "6"
    } else if d == 7 {
        proof {
            reveal_strlit("7");
        }
        "7"
    } else if d == 8 {
        proof {
            reveal_strlit("8");
        }
        "8"
    } else {
        proof {
            reveal_strlit("9");
        }
        "9"
    }
}

/// Renders an unsigned number as decimal text.
pub fn u64_to_dec_string(n: u64) -> (s: String)
    ensures
        s@ == spec_dec_nat(n as nat),
    decreases n,
{
    if n < 10 {
        dec_digit_str(n).to_owned()
    } else {
        let mut s = u64_to_dec_string(n / 10);
        s.append(dec_digit_str(n % 10));
        s
    }
}

/// Renders a signed integer as decimal text.
pub fn i32_to_dec_string(v: i32) -> (s: String)
    ensures
        s@ == spec_dec_int(v as int),
{
    if v >= 0 {
        u64_to_dec_string(v as u64)
    } else {
        let mag: u64 = (-(v as i64)) as u64;
        let mut s = {
            proof {
                reveal_strlit("-");
            }
            "-".to_owned()
        };
        let digits = u64_to_dec_string(mag);
        s.append(digits.as_str());
        s
    }
}

} // verus!
