//! Decimal text for the report: plain integers, fixed-point marks held in
//! thousandths of a mark, and two-decimal rounded values.

use vstd::prelude::*;

verus! {

/// The decimal character for a single digit value.
pub open spec fn digit_char(d: int) -> char {
    if d == 0 {
        '0'
    } else if d == 1 {
        '1'
    } else if d == 2 {
        '2'
    } else if d == 3 {
        '3'
    } else if d == 4 {
        '4'
    } else if d == 5 {
        '5'
    } else if d == 6 {
        '6'
    } else if d == 7 {
        '7'
    } else if d == 8 {
        '8'
    } else {
        '9'
    }
}

/// The usual decimal notation of a natural number, most significant digit
/// first, with no leading zeros (a lone zero for 0).
pub open spec fn dec_digits(n: nat) -> Seq<char>
    decreases n,
{
    if n < 10 {
        seq![digit_char(n as int)]
    } else {
        dec_digits(n / 10).push(digit_char((n % 10) as int))
    }
}

fn digit_str(d: u64) -> (r: &'static str)
    requires
        d < 10,
    ensures
        r@ == seq![digit_char(d as int)],
{
    proof {
        reveal_strlit("0");
        reveal_strlit("1");
        reveal_strlit("2");
        reveal_strlit("3");
        reveal_strlit("4");
        reveal_strlit("5");
        reveal_strlit("6");
        reveal_strlit("7");
        reveal_strlit("8");
        reveal_strlit("9");
    }
    let r: &'static str = if d == 0 {
        "0"
    } else if d == 1 {
        "1"
    } else if d == 2 {
        "2"
    } else if d == 3 {
        "3"
    } else if d == 4 {
        "4"
    } else if d == 5 {
        "5"
    } else if d == 6 {
        "6"
    } else if d == 7 {
        "7"
    } else if d == 8 {
        "8"
    } else {
        "9"
    };
    proof {
        assert(r@ =~= seq![digit_char(d as int)]);
    }
    r
}

/// Renders a natural number in decimal.
pub fn u64_to_dec(n: u64) -> (s: String)
    ensures
        s@ == dec_digits(n as nat),
    decreases n,
{
    if n < 10 {
        digit_str(n).to_owned()
    } else {
        let mut s = u64_to_dec(n / 10);
        s.append(digit_str(n % 10));
        proof {
            assert(dec_digits(n as nat) =~= dec_digits(n as nat / 10).push(
                digit_char((n % 10) as int),
            ));
        }
        s
    }
}

/// The fractional part of a fixed-point mark value, for `0 < f < 1000`:
/// three decimal places with trailing zeros trimmed.
pub open spec fn frac_digits(f: nat) -> Seq<char> {
    if f % 10 != 0 {
        seq![
            digit_char((f / 100) as int),
            digit_char(((f / 10) % 10) as int),
            digit_char((f % 10) as int),
        ]
    } else if f % 100 != 0 {
        seq![digit_char((f / 100) as int), digit_char(((f / 10) % 10) as int)]
    } else {
        seq![digit_char((f / 100) as int)]
    }
}

/// Default text of a mark value held in thousandths: the integer part, then
/// the fractional part with trailing zeros trimmed, omitted entirely when the
/// value is whole.
pub open spec fn milli_string(m: nat) -> Seq<char> {
    if m % 1000 == 0 {
        dec_digits(m / 1000)
    } else {
        dec_digits(m / 1000) + seq!['.'] + frac_digits(m % 1000)
    }
}

/// A value held in hundredths, written with exactly two decimal places.
pub open spec fn hundredths_string(h: nat) -> Seq<char> {
    dec_digits(h / 100) + seq!['.', digit_char(((h / 10) % 10) as int), digit_char((h % 10) as int)]
}

/// `a / b` rounded to the nearest integer, halves rounded up.
pub open spec fn round_div(a: nat, b: nat) -> nat
    recommends
        b > 0,
{
    (2 * a + b) / (2 * b)
}

/// Renders a mark value held in thousandths as its default fixed-point text.
pub fn milli_to_text(m: u64) -> (s: String)
    ensures
        s@ == milli_string(m as nat),
{
    let int_part = m / 1000;
    let frac = m % 1000;
    let mut s = u64_to_dec(int_part);
    if frac != 0 {
        proof {
            reveal_strlit(".");
        }
        s.append(".");
        s.append(digit_str(frac / 100));
        if frac % 10 != 0 {
            s.append(digit_str((frac / 10) % 10));
            s.append(digit_str(frac % 10));
        } else if frac % 100 != 0 {
            s.append(digit_str((frac / 10) % 10));
        }
        proof {
            assert(s@ =~= milli_string(m as nat));
        }
    }
    s
}

/// Renders a value held in hundredths with exactly two decimal places.
pub fn hundredths_to_text(h: u64) -> (s: String)
    ensures
        s@ == hundredths_string(h as nat),
{
    let mut s = u64_to_dec(h / 100);
    proof {
        reveal_strlit(".");
    }
    s.append(".");
    s.append(digit_str((h / 10) % 10));
    s.append(digit_str(h % 10));
    proof {
        assert(s@ =~= hundredths_string(h as nat));
    }
    s
}

/// `a / b` rounded to the nearest integer, halves rounded up, computed
/// exactly in 64 bits.
pub fn round_div_u64(a: u64, b: u64) -> (r: u64)
    requires
        0 < b,
        2 * a + b <= u64::MAX,
        2 * b <= u64::MAX,
    ensures
        r == round_div(a as nat, b as nat),
{
    (2 * a + b) / (2 * b)
}

} // verus!
