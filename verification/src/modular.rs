//! Non-negative (Euclidean) modulus and division on machine integers.
//!
//! Angle and time-of-sol wrap-around must always reduce into `[0, m)`,
//! even for instants before the epoch, so the truncating `%` of the
//! hardware is wrapped into a Euclidean remainder here once and for all.

use vstd::prelude::*;
use vstd::arithmetic::div_mod::lemma_fundamental_div_mod;
use vstd::arithmetic::div_mod::lemma_fundamental_div_mod_converse;
use vstd::arithmetic::div_mod::lemma_div_multiples_vanish;
use vstd::arithmetic::mul::lemma_mul_unary_negation;

verus! {

/// Euclidean remainder of `a` by `m`: the unique `r` in `[0, m)` with
/// `a == m * q + r`. This is exactly the `%` of specification arithmetic.
pub fn emod_i64(a: i64, m: i64) -> (r: i64)
    requires
        0 < m <= 0x2000_0000_0000_0000,
    ensures
        r == a as int % m as int,
        0 <= r < m,
{
    let t: i64 = a % m;
    proof {
        if a < 0 {
            let n: int = -(a as int);
            let q: int = n / m as int;
            let s: int = n % m as int;
            lemma_fundamental_div_mod(n, m as int);
            if s == 0 {
                assert(a as int == (-q) * m as int + 0) by (nonlinear_arith)
                    requires
                        n == m as int * q + s,
                        s == 0,
                        n == -(a as int),
                ;
                lemma_fundamental_div_mod_converse(a as int, m as int, -q, 0);
            } else {
                assert(a as int == (-q - 1) * m as int + (m as int - s)) by (nonlinear_arith)
                    requires
                        n == m as int * q + s,
                        n == -(a as int),
                ;
                lemma_fundamental_div_mod_converse(a as int, m as int, -q - 1, m as int - s);
            }
        }
    }
    if t < 0 {
        t + m
    } else {
        t
    }
}

/// Euclidean (floor) quotient of `a` by `m` for positive `m`: the unique
/// `q` with `a == m * q + r` and `0 <= r < m`. This is exactly the `/` of
/// specification arithmetic, which rounds toward minus infinity.
pub fn ediv_i64(a: i64, m: i64) -> (q: i64)
    requires
        0 < m <= 0x2000_0000_0000_0000,
        i64::MIN + m <= a,
    ensures
        q == a as int / m as int,
{
    let r: i64 = emod_i64(a, m);
    let d: i64 = a - r;
    proof {
        lemma_fundamental_div_mod(a as int, m as int);
        assert(d == m as int * (a as int / m as int));
        lemma_div_multiples_vanish(a as int / m as int, m as int);
        lemma_mul_unary_negation(m as int, a as int / m as int);
        lemma_div_multiples_vanish(-(a as int / m as int), m as int);
    }
    if d >= 0 {
        d / m
    } else {
        -((-d) / m)
    }
}

} // verus!
