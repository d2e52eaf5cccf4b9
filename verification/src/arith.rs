//! Truncating integer division, the rounding convention used for every
//! millisecond average in this crate.

use vstd::arithmetic::div_mod::{lemma_div_nonincreasing, lemma_div_pos_is_pos};
use vstd::prelude::*;

verus! {

/// Division rounding toward zero (Rust's `/` on machine integers), defined
/// for a positive divisor.  Ghost `/` on `int` is Euclidean, so the negative
/// case is spelled out.
pub open spec fn div_trunc(a: int, b: int) -> int
    recommends
        b > 0,
{
    if a >= 0 {
        a / b
    } else {
        -((-a) / b)
    }
}

/// Truncating division on `i128`.  `a != i128::MIN` keeps the negation of a
/// negative dividend representable.
pub fn div_trunc_i128(a: i128, b: i128) -> (q: i128)
    requires
        b > 0,
        a != i128::MIN,
    ensures
        q == div_trunc(a as int, b as int),
{
    if a >= 0 {
        let qa: u128 = (a as u128) / (b as u128);
        proof {
            lemma_div_pos_is_pos(a as int, b as int);
            lemma_div_nonincreasing(a as int, b as int);
        }
        qa as i128
    } else {
        let na: u128 = (-a) as u128;
        let qa: u128 = na / (b as u128);
        proof {
            lemma_div_pos_is_pos(na as int, b as int);
            lemma_div_nonincreasing(na as int, b as int);
        }
        -(qa as i128)
    }
}

} // verus!
