//! Decimal rendering of integers.

use vstd::prelude::*;
use crate::keys::digit_char;

verus! {

/// The decimal digit sequence of `n`, most significant digit first.
pub open spec fn dec_digits(n: nat) -> Seq<char>
    decreases n,
{
    if n < 10 {
        seq![digit_char(n as int)]
    } else {
        dec_digits(n / 10).push(digit_char((n % 10) as int))
    }
}

/// The decimal form of a signed value: a minus sign before the digits
/// of its magnitude.
pub open spec fn spec_i64_string(v: i64) -> Seq<char> {
    if v < 0 {
        seq!['-'] + dec_digits((-(v as int)) as nat)
    } else {
        dec_digits(v as nat)
    }
}

/// A one-character string holding a decimal digit (shared with the key
/// module's padded rendering).
fn digit_str(d: u64) -> (r: &'static str)
    requires
        d < 10,
    ensures
        r@ =~= seq![digit_char(d as int)],
{
    proof {
        reveal_strlit("0");
        reveal_strlit("1");
        reveal_strlit("2");
        reveal_strlit("3");
        reveal_strlit("4");
        reveal_strlit("5");
        reveal_strlit("6");
        reveal_strlit("7");
        reveal_strlit("8");
        reveal_strlit("9");
    }
    match d {
        0 => "0",
        1 => "1",
        2 => "2",
        3 => "3",
        4 => "4",
        5 => "5",
        6 => "6",
        7 => "7",
        8 => "8",
        _ => "9",
    }
}

/// Render an unsigned value as decimal text.
pub fn format_u64(n: u64) -> (r: String)
    ensures
        r@ == dec_digits(n as nat),
{
    let mut acc = digit_str(n % 10).to_owned();
    let mut m = n / 10;
    proof {
        if n < 10 {
            assert(acc@ =~= dec_digits(n as nat));
        } else {
            assert(dec_digits(n as nat) == dec_digits((n / 10) as nat).push(
                digit_char((n % 10) as int),
            ));
            assert(dec_digits((m as nat)).push(digit_char((n % 10) as int)) =~= dec_digits(
                (m as nat),
            ) + acc@);
        }
    }
    while m > 0
        invariant
            dec_digits(n as nat) == if m > 0 {
                dec_digits(m as nat) + acc@
            } else {
                acc@
            },
        decreases m,
    {
        let d = m % 10;
        let next = m / 10;
        let digit = digit_str(d);
        let rest = acc;
        acc = digit.to_owned();
        acc.append(rest.as_str());
        proof {
            if next > 0 {
                assert(dec_digits(m as nat) == dec_digits(next as nat).push(
                    digit_char(d as int),
                ));
                assert(dec_digits(next as nat).push(digit_char(d as int)) + rest@ =~= dec_digits(
                    next as nat,
                ) + acc@);
            } else {
                assert(m < 10);
                assert(dec_digits(m as nat) + rest@ =~= acc@);
            }
        }
        m = next;
    }
    acc
}

/// Render a signed value as decimal text.
pub fn format_i64(v: i64) -> (r: String)
    ensures
        r@ == spec_i64_string(v),
{
    if v >= 0 {
        format_u64(v as u64)
    } else {
        let magnitude: u64 = if v == i64::MIN {
            9223372036854775808u64
        } else {
            (-v) as u64
        };
        let mut out = "-".to_owned();
        let digits = format_u64(magnitude);
        out.append(digits.as_str());
        proof {
            reveal_strlit("-");
            assert(out@ =~= spec_i64_string(v));
        }
        out
    }
}

} // verus!
