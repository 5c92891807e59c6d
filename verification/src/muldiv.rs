//! Exact `floor(r * m / g)` for a numerator below its divisor, computed
//! without ever forming the full product `r * m`.

use vstd::prelude::*;
use vstd::arithmetic::div_mod::lemma_fundamental_div_mod_converse;

verus! {

/// The divisors that `scaled_quotient` accepts stay below this bound, so that
/// doubling a remainder never leaves `u128`.
pub const DIVISOR_LIMIT: u128 = 0x8000_0000_0000_0000_0000_0000_0000_0000;

proof fn lemma_add_step(r: int, k: int, p: int, q: int, pq: int, g: int, rem: int, prem: int)
    requires
        r * k == q * g + rem,
        r * p == pq * g + prem,
    ensures
        r * (k + p) == (q + pq) * g + (rem + prem),
        r * (k + p) == (q + pq + 1) * g + (rem + prem - g),
{
    assert(r * (k + p) == r * k + r * p) by (nonlinear_arith);
    assert((q + pq) * g == q * g + pq * g) by (nonlinear_arith);
    assert((q + pq + 1) * g == q * g + pq * g + g) by (nonlinear_arith);
}

proof fn lemma_double_step(r: int, p: int, pq: int, g: int, prem: int)
    requires
        r * p == pq * g + prem,
    ensures
        r * (2 * p) == (2 * pq) * g + 2 * prem,
        r * (2 * p) == (2 * pq + 1) * g + (2 * prem - g),
{
    assert(r * (2 * p) == 2 * (r * p)) by (nonlinear_arith);
    assert((2 * pq) * g == 2 * (pq * g)) by (nonlinear_arith);
    assert((2 * pq + 1) * g == 2 * (pq * g) + g) by (nonlinear_arith);
}

proof fn lemma_rest_step(k: int, p: int, rest: int, m: int)
    requires
        k + p * rest == m,
        rest > 0,
        k >= 0,
        p >= 1,
    ensures
        rest / 2 > 0 ==> 2 * p <= m,
        rest % 2 == 1 ==> (k + p) + (2 * p) * (rest / 2) == m,
        rest % 2 == 0 ==> k + (2 * p) * (rest / 2) == m,
        p <= p * rest,
{
    assert(rest == 2 * (rest / 2) + rest % 2);
    assert(p * rest == p * (2 * (rest / 2)) + p * (rest % 2)) by (nonlinear_arith)
        requires
            rest == 2 * (rest / 2) + rest % 2,
    ;
    assert(p * (2 * (rest / 2)) == (2 * p) * (rest / 2)) by (nonlinear_arith);
    if rest % 2 == 1 {
        assert(p * (rest % 2) == p) by (nonlinear_arith)
            requires
                rest % 2 == 1,
        ;
    } else {
        assert(p * (rest % 2) == 0) by (nonlinear_arith)
            requires
                rest % 2 == 0,
        ;
    }
    assert(p <= p * rest) by (nonlinear_arith)
        requires
            rest >= 1,
            p >= 1,
    ;
    if rest / 2 > 0 {
        assert((2 * p) * (rest / 2) >= 2 * p) by (nonlinear_arith)
            requires
                rest / 2 >= 1,
                p >= 1,
        ;
    }
}

proof fn lemma_quotient_below(r: int, k: int, q: int, g: int, rem: int)
    requires
        0 <= r < g,
        0 <= k,
        0 <= q,
        0 <= rem,
        r * k == q * g + rem,
    ensures
        q <= k,
{
    assert(r * k <= g * k) by (nonlinear_arith)
        requires
            0 <= r < g,
            0 <= k,
    ;
    assert(q <= k) by (nonlinear_arith)
        requires
            q * g <= g * k,
            0 < g,
    ;
}

/// `floor(r * m / g)` for `r < g`, by binary multiplication of `r` by `m`
/// in which every partial product is kept as a quotient and a remainder
/// modulo `g`.
pub fn scaled_quotient(r: u128, m: u64, g: u128) -> (q: u128)
    requires
        r < g,
        g < DIVISOR_LIMIT,
    ensures
        q == (r as int) * (m as int) / (g as int),
        q <= m,
{
    // Invariant: r * k == q * g + rem and r * pow == pq * g + prem, with the
    // bits of m below pow already gathered into k.
    let mut q: u128 = 0;
    let mut rem: u128 = 0;
    let mut pq: u128 = 0;
    let mut prem: u128 = r;
    let mut rest: u64 = m;
    let ghost mut k: int = 0;
    let ghost mut pow: int = 1;
    while rest > 0
        invariant
            r < g,
            g < DIVISOR_LIMIT,
            0 <= k <= m,
            1 <= pow,
            rest > 0 ==> pow <= m,
            k + pow * rest == m,
            r * k == q * g + rem,
            r * pow == pq * g + prem,
            rem < g,
            prem < g,
            q <= k,
            pq <= pow,
        decreases rest,
    {
        proof {
            lemma_rest_step(k, pow, rest as int, m as int);
        }
        if rest % 2 == 1 {
            proof {
                lemma_add_step(r as int, k, pow, q as int, pq as int, g as int, rem as int, prem as int);
            }
            let sum = rem + prem;
            if sum >= g {
                q = q + pq + 1;
                rem = sum - g;
            } else {
                q = q + pq;
                rem = sum;
            }
            proof {
                k = k + pow;
                lemma_quotient_below(r as int, k, q as int, g as int, rem as int);
            }
        }
        proof {
            lemma_double_step(r as int, pow, pq as int, g as int, prem as int);
        }
        let twice = prem * 2;
        if twice >= g {
            pq = pq * 2 + 1;
            prem = twice - g;
        } else {
            pq = pq * 2;
            prem = twice;
        }
        rest = rest / 2;
        proof {
            pow = 2 * pow;
            lemma_quotient_below(r as int, pow, pq as int, g as int, prem as int);
        }
    }
    proof {
        lemma_fundamental_div_mod_converse(
            (r as int) * (m as int),
            g as int,
            q as int,
            rem as int,
        );
    }
    q
}

} // verus!
