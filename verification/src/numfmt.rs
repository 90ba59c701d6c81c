//! Decimal rendering of the integer fields that appear in change-log columns.

use vstd::prelude::*;
use vstd::string::StringExecFns;

verus! {

/// The character for one decimal digit value.
pub open spec fn dec_digit(d: nat) -> char {
    if d == 0 {
        '0'
    } else if d == 1 {
        '1'
    } else if d == 2 {
        '2'
    } else if d == 3 {
        '3'
    } else if d == 4 {
        '4'
    } else if d == 5 {
        '5'
    } else if d == 6 {
        '6'
    } else if d == 7 {
        '7'
    } else if d == 8 {
        '8'
    } else {
        '9'
    }
}

/// Decimal rendering of a natural number, most significant digit first,
/// with no leading zeros (zero renders as a single '0').
pub open spec fn dec_chars(n: nat) -> Seq<char>
    decreases n,
{
    if n < 10 {
        seq![dec_digit(n)]
    } else {
        dec_chars(n / 10) + seq![dec_digit(n % 10)]
    }
}

/// Decimal rendering of a signed value: a '-' sign followed by the digits
/// of the magnitude.
pub open spec fn dec_chars_signed(n: int) -> Seq<char> {
    if n < 0 {
        seq!['-'] + dec_chars((-n) as nat)
    } else {
        dec_chars(n as nat)
    }
}

/// Decimal rendering padded with leading zeros to at least two characters.
pub open spec fn pad2_chars(n: nat) -> Seq<char> {
    if n < 10 {
        seq!['0'] + dec_chars(n)
    } else {
        dec_chars(n)
    }
}

/// Decimal rendering padded with leading zeros to at least four characters.
pub open spec fn pad4_chars(n: nat) -> Seq<char> {
    if n < 10 {
        seq!['0', '0', '0'] + dec_chars(n)
    } else if n < 100 {
        seq!['0', '0'] + dec_chars(n)
    } else if n < 1000 {
        seq!['0'] + dec_chars(n)
    } else {
        dec_chars(n)
    }
}

fn digit_str(d: u8) -> (r: &'static str)
    requires
        d < 10,
    ensures
        r@ == seq![dec_digit(d as nat)],
{
    if d == 0 {
        proof {
            reveal_strlit("0");
            assert("0"@ =~= seq![dec_digit(0)]);
        }
        "0"
    } else if d == 1 {
        proof {
            reveal_strlit("1");
            assert("1"@ =~= seq![dec_digit(1)]);
        }
        "1"
    } else if d == 2 {
        proof {
            reveal_strlit("2");
            assert("2"@ =~= seq![dec_digit(2)]);
        }
        "2"
    } else if d == 3 {
        proof {
            reveal_strlit("3");
            assert("3"@ =~= seq![dec_digit(3)]);
        }
        "3"
    } else if d == 4 {
        proof {
            reveal_strlit("4");
            assert("4"@ =~= seq![dec_digit(4)]);
        }
        "4"
    } else if d == 5 {
        proof {
            reveal_strlit("5");
            assert("5"@ =~= seq![dec_digit(5)]);
        }
        "5"
    } else if d == 6 {
        proof {
            reveal_strlit("6");
            assert("6"@ =~= seq![dec_digit(6)]);
        }
        "6"
    } else if d == 7 {
        proof {
            reveal_strlit("7");
            assert("7"@ =~= seq![dec_digit(7)]);
        }
        "7"
    } else if d == 8 {
        proof {
            reveal_strlit("8");
            assert("8"@ =~= seq![dec_digit(8)]);
        }
        "8"
    } else {
        proof {
            reveal_strlit("9");
            assert("9"@ =~= seq![dec_digit(9)]);
        }
        "9"
    }
}

/// Renders an unsigned value in decimal.
pub fn u128_to_dec(n: u128) -> (r: String)
    ensures
        r@ == dec_chars(n as nat),
    decreases n,
{
    if n < 10 {
        let s = digit_str(n as u8);
        s.to_owned()
    } else {
        let rest = u128_to_dec(n / 10);
        let last = digit_str((n % 10) as u8);
        let r = rest.concat(last);
        proof {
            assert(r@ =~= dec_chars(n as nat));
        }
        r
    }
}

/// Renders an unsigned value in decimal.
pub fn u64_to_dec(n: u64) -> (r: String)
    ensures
        r@ == dec_chars(n as nat),
{
    u128_to_dec(n as u128)
}

/// Renders a signed value in decimal, with a leading '-' when negative.
pub fn i64_to_dec(n: i64) -> (r: String)
    ensures
        r@ == dec_chars_signed(n as int),
{
    if n >= 0 {
        u128_to_dec(n as u128)
    } else {
        let m: u128 = (-(n as i128)) as u128;
        let digits = u128_to_dec(m);
        let r = String::from_str("-").concat(digits.as_str());
        proof {
            reveal_strlit("-");
            assert(r@ =~= dec_chars_signed(n as int));
        }
        r
    }
}

/// Renders an unsigned value in decimal, padded to at least two digits.
pub fn u64_to_dec_pad2(n: u64) -> (r: String)
    ensures
        r@ == pad2_chars(n as nat),
{
    let digits = u64_to_dec(n);
    if n < 10 {
        let r = String::from_str("0").concat(digits.as_str());
        proof {
            reveal_strlit("0");
            assert(r@ =~= pad2_chars(n as nat));
        }
        r
    } else {
        digits
    }
}

/// Renders an unsigned value in decimal, padded to at least four digits.
pub fn u64_to_dec_pad4(n: u64) -> (r: String)
    ensures
        r@ == pad4_chars(n as nat),
{
    let digits = u64_to_dec(n);
    if n < 10 {
        let r = String::from_str("000").concat(digits.as_str());
        proof {
            reveal_strlit("000");
            assert(r@ =~= pad4_chars(n as nat));
        }
        r
    } else if n < 100 {
        let r = String::from_str("00").concat(digits.as_str());
        proof {
            reveal_strlit("00");
            assert(r@ =~= pad4_chars(n as nat));
        }
        r
    } else if n < 1000 {
        let r = String::from_str("0").concat(digits.as_str());
        proof {
            reveal_strlit("0");
            assert(r@ =~= pad4_chars(n as nat));
        }
        r
    } else {
        digits
    }
}

} // verus!
