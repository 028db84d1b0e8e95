//! Decimal rendering of the integers that appear in notification messages:
//! offer costs and discount percentages.

use vstd::prelude::*;
use vstd::string::StrSliceExecFns;
use vstd::string::StringExecFns;

verus! {

/// The decimal digit character for a value below ten.
pub open spec fn spec_digit(d: nat) -> char {
    if d == 0 {
        '0'
    } else if d == 1 {
        '1'
    } else if d == 2 {
        '2'
    } else if d == 3 {
        '3'
    } else if d == 4 {
        '4'
    } else if d == 5 {
        '5'
    } else if d == 6 {
        '6'
    } else if d == 7 {
        '7'
    } else if d == 8 {
        '8'
    } else {
        '9'
    }
}

/// The usual decimal rendering of a natural number, most significant digit
/// first, with no leading zeros (a single zero for zero itself).
pub open spec fn spec_udec(n: nat) -> Seq<char>
    decreases n,
{
    if n < 10 {
        seq![spec_digit(n)]
    } else {
        spec_udec(n / 10).push(spec_digit(n % 10))
    }
}

/// The decimal rendering of a signed number: a minus sign before the digits
/// when the number is negative.
pub open spec fn spec_idec(n: int) -> Seq<char> {
    if n >= 0 {
        spec_udec(n as nat)
    } else {
        seq!['-'].add(spec_udec((-n) as nat))
    }
}

fn digit_str(d: u64) -> (r: &'static str)
    requires
        d < 10,
    ensures
        r@ == seq![spec_digit(d as nat)],
{
    proof {
        reveal_strlit("0");
        reveal_strlit("1");
        reveal_strlit("2");
        reveal_strlit("3");
        reveal_strlit("4");
        reveal_strlit("5");
        reveal_strlit("6");
        reveal_strlit("7");
        reveal_strlit("8");
        reveal_strlit("9");
    }
    let r = match d {
        0 => "0",
        1 => "1",
        2 => "2",
        3 => "3",
        4 => "4",
        5 => "5",
        6 => "6",
        7 => "7",
        8 => "8",
        _ => "9",
    };
    proof {
        assert(r@ =~= seq![spec_digit(d as nat)]);
    }
    r
}

/// Renders an unsigned value in decimal.
pub fn u64_dec(n: u64) -> (r: String)
    ensures
        r@ == spec_udec(n as nat),
    decreases n,
{
    if n < 10 {
        digit_str(n).to_owned()
    } else {
        let prefix = u64_dec(n / 10);
        let r = prefix.concat(digit_str(n % 10));
        proof {
            assert(r@ =~= spec_udec(n as nat));
        }
        r
    }
}

/// Renders a signed value in decimal, with a leading minus sign when
/// negative.
pub fn i64_dec(n: i64) -> (r: String)
    ensures
        r@ == spec_idec(n as int),
{
    if n >= 0 {
        u64_dec(n as u64)
    } else {
        // `n + 1` avoids overflow when negating the smallest value.
        let above = -(n + 1);
        let magnitude: u64 = (above as u64) + 1;
        proof {
            reveal_strlit("-");
            assert(magnitude == (-(n as int)) as nat);
        }
        let r = "-".to_owned().concat(u64_dec(magnitude).as_str());
        proof {
            assert(r@ =~= spec_idec(n as int));
        }
        r
    }
}

} // verus!
