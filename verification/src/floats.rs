//! Comparing floating-point numbers by their bits.
//!
//! A number of the IEEE 754 format binary64 is a sign, an exponent and a
//! fraction. Its bits alone say how it compares with another.

use crate::models::Real;
use vstd::prelude::*;

verus! {

/// The bits of infinity; what lies above, the sign aside, is no number.
pub const INFINITY_BITS: u64 = 0x7ff0_0000_0000_0000;

/// The bit of the sign.
pub const SIGN_BIT: u64 = 0x8000_0000_0000_0000;

/// The bits without the sign.
pub open spec fn magnitude(r: Real) -> u64 {
    if r.bits >= SIGN_BIT {
        (r.bits - SIGN_BIT) as u64
    } else {
        r.bits
    }
}

/// Is it no number?
pub open spec fn is_nan(r: Real) -> bool {
    magnitude(r) > INFINITY_BITS
}

/// The place of a value in the total order of all values: the larger value has
/// the larger place.
pub open spec fn place(r: Real) -> u64 {
    if r.bits >= SIGN_BIT {
        (u64::MAX - r.bits) as u64
    } else {
        (r.bits + SIGN_BIT) as u64
    }
}

/// Is `a` at least `b`? What is no number compares with nothing, and the two
/// zeros are equal.
pub open spec fn at_least(a: Real, b: Real) -> bool {
    !is_nan(a) && !is_nan(b) && (place(a) >= place(b) || (magnitude(a) == 0 && magnitude(b) == 0))
}

fn magnitude_of(r: Real) -> (m: u64)
    ensures
        m == magnitude(r),
{
    if r.bits >= SIGN_BIT {
        r.bits - SIGN_BIT
    } else {
        r.bits
    }
}

/// The place of a value in the total order of all values.
pub fn place_of(r: Real) -> (p: u64)
    ensures
        p == place(r),
{
    if r.bits >= SIGN_BIT {
        u64::MAX - r.bits
    } else {
        r.bits + SIGN_BIT
    }
}

/// Is `a` at least `b`?
pub fn is_at_least(a: Real, b: Real) -> (r: bool)
    ensures
        r == at_least(a, b),
{
    let x = magnitude_of(a);
    let y = magnitude_of(b);
    x <= INFINITY_BITS && y <= INFINITY_BITS && (place_of(a) >= place_of(b) || (x == 0 && y == 0))
}

/// Two to the power `n`.
pub open spec fn two_to(n: nat) -> nat
    decreases n,
{
    if n == 0 {
        1
    } else {
        2 * two_to((n - 1) as nat)
    }
}

/// The bits of one.
pub const ONE_BITS: u64 = 0x3ff0_0000_0000_0000;

/// The bits of the smallest number without room for a fraction: two to the 52.
pub const WHOLE_BITS: u64 = 0x4330_0000_0000_0000;

/// Two to the 52, the number of fractions.
pub const FRACTIONS: u64 = 0x0010_0000_0000_0000;

/// The whole part of a number from zero up to two to the 52, by which larger
/// numbers are bounded; nothing of what is negative or no number.
pub open spec fn whole(r: Real) -> nat {
    if r.bits < ONE_BITS || r.bits > INFINITY_BITS {
        0
    } else if r.bits >= WHOLE_BITS {
        FRACTIONS as nat
    } else {
        let halvings = (1075 - r.bits as int / FRACTIONS as int) as nat;
        (FRACTIONS as nat + r.bits as nat % FRACTIONS as nat) / two_to(halvings)
    }
}

/// The whole part of a number from zero up to two to the 52.
pub fn whole_part(r: Real) -> (n: u64)
    ensures
        n == whole(r),
{
    if r.bits < ONE_BITS || r.bits > INFINITY_BITS {
        return 0;
    }
    if r.bits >= WHOLE_BITS {
        return FRACTIONS;
    }
    let exponent: u64 = r.bits / FRACTIONS;
    let mut left: u64 = 1075 - exponent;
    let mut n: u64 = FRACTIONS + r.bits % FRACTIONS;
    let ghost start = n as nat;
    let ghost all = left as nat;
    let ghost mut done: nat = 0;
    assert(start as int / 1 == start as int);
    while left > 0
        invariant
            done + left == all,
            n as nat == start / two_to(done),
        decreases left,
    {
        proof {
            lemma_halve(start, done);
            done = done + 1;
        }
        n = n / 2;
        left = left - 1;
    }
    n
}

proof fn lemma_halve(start: nat, done: nat)
    ensures
        start / two_to((done + 1) as nat) == (start / two_to(done)) / 2,
{
    let p = two_to(done);
    lemma_two_to_positive(done);
    assert(two_to((done + 1) as nat) == p * 2) by (nonlinear_arith)
        requires
            two_to((done + 1) as nat) == 2 * p,
    ;
    vstd::arithmetic::div_mod::lemma_div_denominator(start as int, p as int, 2);
}

proof fn lemma_two_to_positive(n: nat)
    ensures
        two_to(n) > 0,
    decreases n,
{
    if n > 0 {
        lemma_two_to_positive((n - 1) as nat);
    }
}

/// The order is total: of two values the one with the larger place is larger,
/// and values in the same place are the same.
pub proof fn law_places_are_distinct(a: Real, b: Real)
    requires
        place(a) == place(b),
    ensures
        a == b,
{
}

/// Of two numbers without a sign the one with the larger bits is larger; every
/// number without a sign is at least every number with one; of two with a sign
/// the one with the smaller bits is larger; the two zeros are equal; and what is
/// no number is at least nothing, nor is anything at least it.
pub proof fn law_numbers_compare_by_value(a: Real, b: Real, r: bool)
    requires
        call_ensures(is_at_least, (a, b), r),
    ensures
        a.bits <= 0x7ff0_0000_0000_0000 && b.bits <= 0x7ff0_0000_0000_0000 ==> (r <==> a.bits
            >= b.bits),
        a.bits <= 0x7ff0_0000_0000_0000 && 0x8000_0000_0000_0000 <= b.bits
            <= 0xfff0_0000_0000_0000 ==> r,
        0x8000_0000_0000_0000 < a.bits <= 0xfff0_0000_0000_0000 && b.bits
            <= 0x7ff0_0000_0000_0000 ==> !r,
        a.bits == 0x8000_0000_0000_0000 && b.bits <= 0x7ff0_0000_0000_0000 ==> (r <==> b.bits == 0),
        0x8000_0000_0000_0000 <= a.bits <= 0xfff0_0000_0000_0000 && 0x8000_0000_0000_0000 <= b.bits
            <= 0xfff0_0000_0000_0000 ==> (r <==> a.bits <= b.bits),
        0x7ff0_0000_0000_0000 < a.bits < 0x8000_0000_0000_0000 || a.bits > 0xfff0_0000_0000_0000
            ==> !r,
        0x7ff0_0000_0000_0000 < b.bits < 0x8000_0000_0000_0000 || b.bits > 0xfff0_0000_0000_0000
            ==> !r,
{
}

} // verus!
