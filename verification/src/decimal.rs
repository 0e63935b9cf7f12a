//! Decimal rendering of 32-bit integers, verified against its own
//! definition: the usual base-ten digits, most significant first, no
//! leading zeros, a leading minus sign for negative values.

use vstd::prelude::*;

use crate::slug::chars_to_string;

verus! {

/// The digit character for one value of a digit.
pub open spec fn spec_digit_char(d: int) -> char
    recommends
        0 <= d <= 9,
{
    if d == 0 {
        '0'
    } else if d == 1 {
        '1'
    } else if d == 2 {
        '2'
    } else if d == 3 {
        '3'
    } else if d == 4 {
        '4'
    } else if d == 5 {
        '5'
    } else if d == 6 {
        '6'
    } else if d == 7 {
        '7'
    } else if d == 8 {
        '8'
    } else {
        '9'
    }
}

/// The decimal digits of a natural number, most significant first.
pub open spec fn spec_decimal_digits(n: nat) -> Seq<char>
    decreases n,
{
    if n < 10 {
        seq![spec_digit_char(n as int)]
    } else {
        spec_decimal_digits(n / 10).push(spec_digit_char((n % 10) as int))
    }
}

/// The decimal rendering of an integer: its digits, with a minus sign in
/// front when it is negative.
pub open spec fn decimal_of(i: i32) -> Seq<char> {
    if i < 0 {
        seq!['-'] + spec_decimal_digits((-(i as int)) as nat)
    } else {
        spec_decimal_digits(i as nat)
    }
}

/// The digit character for one digit value.
fn digit_char(d: i64) -> (r: char)
    requires
        0 <= d <= 9,
    ensures
        r == spec_digit_char(d as int),
{
    if d == 0 {
        '0'
    } else if d == 1 {
        '1'
    } else if d == 2 {
        '2'
    } else if d == 3 {
        '3'
    } else if d == 4 {
        '4'
    } else if d == 5 {
        '5'
    } else if d == 6 {
        '6'
    } else if d == 7 {
        '7'
    } else if d == 8 {
        '8'
    } else {
        '9'
    }
}

/// The decimal rendering of a 32-bit integer, as `decimal_of` states it.
pub fn i32_to_string(i: i32) -> (r: String)
    ensures
        r@ == decimal_of(i),
{
    let v: i64 = i as i64;
    let mag: i64 = if v < 0 {
        -v
    } else {
        v
    };
    let mut digits: Vec<char> = Vec::new();
    let mut m: i64 = mag;
    while m >= 10
        invariant
            0 <= m <= mag,
            spec_decimal_digits(mag as nat) =~= spec_decimal_digits(m as nat)
                + digits@.reverse(),
        decreases m,
    {
        digits.push(digit_char(m % 10));
        proof {
            assert(digits@.reverse() =~= seq![digits@.last()] + digits@.drop_last().reverse());
        }
        m = m / 10;
    }
    let mut out: Vec<char> = Vec::new();
    if v < 0 {
        out.push('-');
    }
    out.push(digit_char(m));
    let ghost base = out@;
    proof {
        assert(digits@.subrange(digits@.len() as int, digits@.len() as int).reverse()
            =~= Seq::<char>::empty());
    }
    let mut k = digits.len();
    while k > 0
        invariant
            k <= digits@.len(),
            out@ =~= base + digits@.subrange(k as int, digits@.len() as int).reverse(),
        decreases k,
    {
        out.push(digits[k - 1]);
        proof {
            assert(digits@.subrange(k - 1, digits@.len() as int) =~= seq![
                digits@[k - 1],
            ] + digits@.subrange(k as int, digits@.len() as int));
            assert(digits@.subrange(k - 1, digits@.len() as int).reverse() =~= digits@.subrange(
                k as int,
                digits@.len() as int,
            ).reverse() + seq![digits@[k - 1]]);
        }
        k = k - 1;
    }
    proof {
        assert(digits@.subrange(0, digits@.len() as int) =~= digits@);
        assert(spec_decimal_digits(mag as nat) =~= seq![spec_digit_char(m as int)]
            + digits@.reverse());
        assert(out@ =~= base + digits@.reverse());
        if v < 0 {
            assert(base =~= seq!['-', spec_digit_char(m as int)]);
            assert(out@ =~= seq!['-'] + spec_decimal_digits(mag as nat));
        } else {
            assert(base =~= seq![spec_digit_char(m as int)]);
            assert(out@ =~= spec_decimal_digits(mag as nat));
        }
    }
    chars_to_string(&out)
}

} // verus!
