//! Division rounded to the nearest integer.

use vstd::arithmetic::div_mod::{lemma_fundamental_div_mod, lemma_fundamental_div_mod_converse};
use vstd::prelude::*;

verus! {

/// `n / d` rounded to the nearest integer, a tie going to the even neighbour.
pub open spec fn nearest(n: nat, d: nat) -> nat
    recommends
        d > 0,
{
    let q = n / d;
    let r = n % d;
    if 2 * r < d || (2 * r == d && q % 2 == 0) {
        q
    } else {
        q + 1
    }
}

/// The rounded quotient is off by at most one half, and a quotient without a
/// remainder is not rounded at all.
pub proof fn lemma_nearest(n: nat, d: nat)
    requires
        d > 0,
    ensures
        2 * n - d <= 2 * (nearest(n, d) * d) <= 2 * n + d,
        n % d == 0 ==> nearest(n, d) == n / d && nearest(n, d) * d == n,
        nearest(n, d) <= n,
{
    let q = n / d;
    let r = n % d;
    assert(n == q * d + r && r < d) by (nonlinear_arith)
        requires
            d > 0,
            q == n / d,
            r == n % d,
    ;
    assert((q + 1) * d == q * d + d) by (nonlinear_arith);
    assert(q <= q * d) by (nonlinear_arith)
        requires
            d > 0,
    ;
}

/// Taking an even multiple of the divisor away takes as much away from the rounded
/// quotient.
pub proof fn lemma_nearest_shift(n: nat, d: nat, m: nat)
    requires
        d > 0,
        m % 2 == 0,
        m * d <= n,
    ensures
        nearest((n - m * d) as nat, d) == nearest(n, d) - m,
{
    let q = n as int / d as int;
    let r = n as int % d as int;
    lemma_fundamental_div_mod(n as int, d as int);
    assert(n - m * d == (q - m) * d + r) by (nonlinear_arith)
        requires
            n == d * q + r,
    ;
    lemma_fundamental_div_mod_converse(n - m * d, d as int, q - m, r);
    assert(q - m >= 0) by (nonlinear_arith)
        requires
            n - m * d == (q - m) * d + r,
            n - m * d >= 0,
            r < d,
            d > 0,
    ;
}

/// More of the same does not become less by rounding.
pub proof fn lemma_nearest_is_monotonic(m: nat, n: nat, d: nat)
    requires
        d > 0,
        m <= n,
    ensures
        nearest(m, d) <= nearest(n, d),
{
    lemma_fundamental_div_mod(m as int, d as int);
    lemma_fundamental_div_mod(n as int, d as int);
    let a = m as int / d as int;
    let b = n as int / d as int;
    assert(a <= b) by (nonlinear_arith)
        requires
            m == d * a + m as int % d as int,
            n == d * b + n as int % d as int,
            m <= n,
            0 <= m as int % d as int,
            n as int % (d as int) < d,
            d > 0,
    ;
}

/// Computes [`nearest`].
pub fn divide_nearest(n: u128, d: u128) -> (q: u128)
    requires
        d > 0,
    ensures
        q == nearest(n as nat, d as nat),
        2 * n - d <= 2 * (q * d) <= 2 * n + d,
{
    let q: u128 = n / d;
    let r: u128 = n % d;
    proof {
        lemma_nearest(n as nat, d as nat);
    }
    if r < d - r || (r == d - r && q % 2 == 0) {
        q
    } else {
        q + 1
    }
}

/// The quotient and the remainder of a thousand times `n` by `d`.
fn thousandfold(n: u128, d: u128) -> (r: (u128, u128))
    requires
        n < d <= 0x8000_0000_0000_0000_0000_0000_0000_0000,
    ensures
        n * 1000 == r.0 * d + r.1,
        r.1 < d,
        r.0 <= 1000,
{
    if n <= u128::MAX / 1000 {
        let q: u128 = n * 1000 / d;
        let r: u128 = n * 1000 % d;
        proof {
            lemma_fundamental_div_mod(n * 1000, d as int);
            assert(q * d == d * q) by (nonlinear_arith);
            assert(q <= 1000) by (nonlinear_arith)
                requires
                    n * 1000 == d * q + r,
                    n < d,
                    r >= 0,
            ;
        }
        (q, r)
    } else {
        let mut q: u128 = 0;
        let mut r: u128 = 0;
        let mut i: u128 = 0;
        assert(0 * d == 0);
        while i < 1000
            invariant
                i <= 1000,
                q <= i,
                n < d <= 0x8000_0000_0000_0000_0000_0000_0000_0000,
                r < d,
                n * i == q * d + r,
            decreases 1000 - i,
        {
            assert(n * (i + 1) == n * i + n) by (nonlinear_arith);
            assert((q + 1) * d == q * d + d) by (nonlinear_arith);
            r = r + n;
            if r >= d {
                r = r - d;
                q = q + 1;
            }
            i = i + 1;
        }
        (q, r)
    }
}

/// Computes [`nearest`] of a thousand times `n`, or `None` if that is more than
/// `limit`.
pub fn divide_thousandfold_nearest(n: u128, d: u128, limit: u128) -> (q: Option<u128>)
    requires
        0 < d <= 0x8000_0000_0000_0000_0000_0000_0000_0000,
        limit <= u128::MAX / 2,
    ensures
        q is Some <==> nearest((n * 1000) as nat, d as nat) <= limit,
        q matches Some(q) ==> q == nearest((n * 1000) as nat, d as nat),
{
    let whole: u128 = n / d;
    let (part, r): (u128, u128) = thousandfold(n % d, d);
    proof {
        lemma_fundamental_div_mod(n as int, d as int);
        assert(n * 1000 == (whole * 1000 + part) * d + r) by (nonlinear_arith)
            requires
                n == d * whole + n % d,
                (n % d) * 1000 == part * d + r,
        ;
        lemma_fundamental_div_mod_converse(n * 1000, d as int, whole * 1000 + part, r as int);
    }
    if whole > limit / 1000 {
        return None;
    }
    let floor: u128 = whole * 1000 + part;
    let q: u128 = if r < d - r || (r == d - r && floor % 2 == 0) {
        floor
    } else {
        floor + 1
    };
    if q <= limit {
        Some(q)
    } else {
        None
    }
}

} // verus!
