//! Decimal text of an amount.

use vstd::prelude::*;
use vstd::string::*;

verus! {

/// The character of one decimal digit.
pub open spec fn digit(d: int) -> char {
    if d == 0 {
        '0'
    } else if d == 1 {
        '1'
    } else if d == 2 {
        '2'
    } else if d == 3 {
        '3'
    } else if d == 4 {
        '4'
    } else if d == 5 {
        '5'
    } else if d == 6 {
        '6'
    } else if d == 7 {
        '7'
    } else if d == 8 {
        '8'
    } else {
        '9'
    }
}

/// The digits of a natural number, most significant first, without leading
/// zeros.
pub open spec fn digits(n: nat) -> Seq<char>
    decreases n,
{
    if n < 10 {
        seq![digit(n as int)]
    } else {
        digits(n / 10) + seq![digit((n % 10) as int)]
    }
}

/// The decimal text of an integer: a minus sign where it is negative, then
/// the digits of its magnitude.
pub open spec fn decimal(n: int) -> Seq<char> {
    if n < 0 {
        seq!['-'] + digits((-n) as nat)
    } else {
        digits(n as nat)
    }
}

/// One digit as text.
fn digit_text(d: u8) -> (out: &'static str)
    requires
        d < 10,
    ensures
        out@ == seq![digit(d as int)],
{
    proof {
        reveal_strlit("0");
        reveal_strlit("1");
        reveal_strlit("2");
        reveal_strlit("3");
        reveal_strlit("4");
        reveal_strlit("5");
        reveal_strlit("6");
        reveal_strlit("7");
        reveal_strlit("8");
        reveal_strlit("9");
    }
    let out = if d == 0 {
        "0"
    } else if d == 1 {
        "1"
    } else if d == 2 {
        "2"
    } else if d == 3 {
        "3"
    } else if d == 4 {
        "4"
    } else if d == 5 {
        "5"
    } else if d == 6 {
        "6"
    } else if d == 7 {
        "7"
    } else if d == 8 {
        "8"
    } else {
        "9"
    };
    assert(out@ =~= seq![digit(d as int)]);
    out
}

/// Writes an amount as it stands in the ledger's last column.
pub fn amount_text(amount: i8) -> (out: String)
    ensures
        out@ == decimal(amount as int),
{
    let negative = amount < 0;
    let magnitude: u8 = if negative {
        (-(amount as i16)) as u8
    } else {
        amount as u8
    };
    let mut out = String::new();
    if negative {
        proof {
            reveal_strlit("-");
        }
        out.append("-");
    }
    let ghost sign = out@;
    assert(sign =~= if negative { seq!['-'] } else { Seq::<char>::empty() });
    if magnitude >= 100 {
        out.append(digit_text(magnitude / 100));
    }
    if magnitude >= 10 {
        out.append(digit_text((magnitude / 10) % 10));
    }
    out.append(digit_text(magnitude % 10));
    proof {
        reveal_with_fuel(digits, 3);
        assert(out@ =~= sign + digits(magnitude as nat));
        assert(out@ =~= decimal(amount as int));
    }
    out
}

} // verus!
