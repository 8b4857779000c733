//! Decimal formatting of fixed-point coordinates.
//!
//! Geometry is carried in milliunits (thousandths of a drawing unit), and
//! every number in the emitted markup is written with exactly three decimal
//! places, so formatting a coordinate is pure integer arithmetic.

use vstd::prelude::*;

verus! {

/// The decimal digit character for a value in 0..=9.
pub open spec fn digit_char(d: int) -> char {
    if d == 0 {
        '0'
    } else if d == 1 {
        '1'
    } else if d == 2 {
        '2'
    } else if d == 3 {
        '3'
    } else if d == 4 {
        '4'
    } else if d == 5 {
        '5'
    } else if d == 6 {
        '6'
    } else if d == 7 {
        '7'
    } else if d == 8 {
        '8'
    } else {
        '9'
    }
}

/// The usual decimal notation of a nonnegative integer, most significant
/// digit first, with no leading zeros (a lone zero for 0).
pub open spec fn spec_udec(n: nat) -> Seq<char>
    decreases n,
{
    if n < 10 {
        seq![digit_char(n as int)]
    } else {
        spec_udec(n / 10) + seq![digit_char((n % 10) as int)]
    }
}

/// A milliunit value written with exactly three decimal places: an optional
/// leading minus, the whole part in decimal, a point, then the three
/// fractional digits.
pub open spec fn spec_milli(x: int) -> Seq<char> {
    let a = if x < 0 {
        -x
    } else {
        x
    };
    let sign: Seq<char> = if x < 0 {
        seq!['-']
    } else {
        Seq::empty()
    };
    sign + spec_udec((a / 1000) as nat) + seq!['.'] + seq![
        digit_char(a % 1000 / 100),
        digit_char(a % 1000 / 10 % 10),
        digit_char(a % 1000 % 10),
    ]
}

/// One decimal digit as a string slice.
fn digit_str(d: u128) -> (res: &'static str)
    requires
        d < 10,
    ensures
        res@ == seq![digit_char(d as int)],
{
    let res = if d == 0 {
        "0"
    } else if d == 1 {
        "1"
    } else if d == 2 {
        "2"
    } else if d == 3 {
        "3"
    } else if d == 4 {
        "4"
    } else if d == 5 {
        "5"
    } else if d == 6 {
        "6"
    } else if d == 7 {
        "7"
    } else if d == 8 {
        "8"
    } else {
        "9"
    };
    proof {
        reveal_strlit("0");
        reveal_strlit("1");
        reveal_strlit("2");
        reveal_strlit("3");
        reveal_strlit("4");
        reveal_strlit("5");
        reveal_strlit("6");
        reveal_strlit("7");
        reveal_strlit("8");
        reveal_strlit("9");
        assert(res@ =~= seq![digit_char(d as int)]);
    }
    res
}

/// The decimal notation of a nonnegative integer.
fn fmt_udec(n: u128) -> (res: String)
    ensures
        res@ == spec_udec(n as nat),
    decreases n,
{
    if n < 10 {
        String::from_str(digit_str(n))
    } else {
        let mut s = fmt_udec(n / 10);
        s.append(digit_str(n % 10));
        proof {
            assert(s@ =~= spec_udec(n as nat));
        }
        s
    }
}

/// Format a milliunit value with exactly three decimal places.
pub fn fmt_milli(x: i128) -> (res: String)
    requires
        x > i128::MIN,
    ensures
        res@ == spec_milli(x as int),
{
    let neg = x < 0;
    let a: u128 = if neg {
        (-x) as u128
    } else {
        x as u128
    };
    let mut s = if neg {
        String::from_str("-")
    } else {
        String::new()
    };
    let whole = fmt_udec(a / 1000);
    s.append(whole.as_str());
    s.append(".");
    s.append(digit_str(a % 1000 / 100));
    s.append(digit_str(a % 1000 / 10 % 10));
    s.append(digit_str(a % 1000 % 10));
    proof {
        reveal_strlit("-");
        reveal_strlit(".");
        assert(a as int == if x < 0 { -(x as int) } else { x as int });
        assert(s@ =~= spec_milli(x as int));
    }
    s
}

} // verus!
