//! Exact arithmetic on fixed-point quantities.
use vstd::arithmetic::div_mod::{lemma_fundamental_div_mod, lemma_fundamental_div_mod_converse};
use vstd::prelude::*;

verus! {

/// The product of two fixed-point numbers counts in this many steps per unit.
pub const UNIT_SQUARED: i128 = 1_000_000_000_000;

/// The quotient rounded towards minus infinity.
pub fn floor_div(n: i128, d: i128) -> (q: i128)
    requires
        d > 0,
    ensures
        q == n / d,
{
    if n >= 0 {
        n / d
    } else {
        let m: i128 = -(n + 1);
        let k: i128 = m / d;
        proof {
            lemma_fundamental_div_mod(m as int, d as int);
            let r = d - 1 - (m % d);
            assert(n == (-k - 1) * d + r) by (nonlinear_arith)
                requires
                    m == d * k + (m % d),
                    n == -m - 1,
                    r == d - 1 - (m % d),
            ;
            lemma_fundamental_div_mod_converse(n as int, d as int, -k - 1, r as int);
        }
        -k - 1
    }
}

/// The number held to the range of `i64`.
pub open spec fn saturate(v: int) -> i64 {
    if v < i64::MIN {
        i64::MIN
    } else if v > i64::MAX {
        i64::MAX
    } else {
        v as i64
    }
}

/// Computes [`saturate`].
pub fn saturate_i128(v: i128) -> (r: i64)
    ensures
        r == saturate(v as int),
{
    if v < -0x8000_0000_0000_0000 {
        i64::MIN
    } else if v > 0x7fff_ffff_ffff_ffff {
        i64::MAX
    } else {
        v as i64
    }
}

} // verus!
