//! Text helpers shared by the renderers: decimal numerals and joining.

use vstd::prelude::*;
use vstd::string::*;

verus! {

/// The character that stands for the digit `d`; `'0'` for anything above 9.
pub open spec fn digit_char(d: nat) -> char {
    if d == 1 {
        '1'
    } else if d == 2 {
        '2'
    } else if d == 3 {
        '3'
    } else if d == 4 {
        '4'
    } else if d == 5 {
        '5'
    } else if d == 6 {
        '6'
    } else if d == 7 {
        '7'
    } else if d == 8 {
        '8'
    } else if d == 9 {
        '9'
    } else {
        '0'
    }
}

/// The decimal numeral of `n`, most significant digit first, without
/// leading zeros (zero itself is `"0"`).
pub open spec fn decimal(n: nat) -> Seq<char>
    decreases n,
{
    if n < 10 {
        seq![digit_char(n)]
    } else {
        decimal(n / 10).push(digit_char(n % 10))
    }
}

fn digit_str(d: u64) -> (s: &'static str)
    requires
        d < 10,
    ensures
        s@ == seq![digit_char(d as nat)],
{
    proof {
        reveal_strlit("0");
        reveal_strlit("1");
        reveal_strlit("2");
        reveal_strlit("3");
        reveal_strlit("4");
        reveal_strlit("5");
        reveal_strlit("6");
        reveal_strlit("7");
        reveal_strlit("8");
        reveal_strlit("9");
    }
    let s = if d == 0 {
        "0"
    } else if d == 1 {
        "1"
    } else if d == 2 {
        "2"
    } else if d == 3 {
        "3"
    } else if d == 4 {
        "4"
    } else if d == 5 {
        "5"
    } else if d == 6 {
        "6"
    } else if d == 7 {
        "7"
    } else if d == 8 {
        "8"
    } else {
        "9"
    };
    assert(s@ =~= seq![digit_char(d as nat)]);
    s
}

/// Renders `n` as a decimal numeral.
pub fn render_decimal(n: u64) -> (s: String)
    ensures
        s@ == decimal(n as nat),
    decreases n,
{
    if n < 10 {
        String::from_str(digit_str(n))
    } else {
        let mut s = render_decimal(n / 10);
        s.append(digit_str(n % 10));
        assert(s@ =~= decimal(n as nat));
        s
    }
}

/// The decimal numeral of `value`, with a `-` before it where it is
/// negative.
pub open spec fn signed_decimal(value: int) -> Seq<char> {
    if value < 0 {
        seq!['-'] + decimal((-value) as nat)
    } else {
        decimal(value as nat)
    }
}

/// Renders `value` as a decimal numeral, with a `-` before it where it is
/// negative.
pub fn render_signed(value: i64) -> (s: String)
    ensures
        s@ == signed_decimal(value as int),
{
    if value < 0 {
        let magnitude: u64 = (-(value + 1)) as u64 + 1;
        proof {
            reveal_strlit("-");
        }
        let mut s = String::from_str("-");
        let digits = render_decimal(magnitude);
        s.append(digits.as_str());
        assert(s@ =~= signed_decimal(value as int));
        s
    } else {
        render_decimal(value as u64)
    }
}

} // verus!
