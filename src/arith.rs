use vstd::prelude::*;
use vstd::arithmetic::div_mod::{lemma_fundamental_div_mod, lemma_fundamental_div_mod_converse};

verus! {

/// `n / d` rounded toward negative infinity.
pub fn floor_div(n: i64, d: i64) -> (r: i64)
    requires
        d > 0,
    ensures
        r == n / d,
        n >= 0 ==> 0 <= r <= n,
        n < 0 ==> n <= r < 0,
{
    if n >= 0 {
        let q: u64 = (n as u64) / (d as u64);
        proof {
            lemma_fundamental_div_mod(n as int, d as int);
            let rem = (n as int) % (d as int);
            assert(q <= n) by (nonlinear_arith)
                requires
                    n == d * q + rem,
                    rem >= 0,
                    d >= 1,
                    q >= 0,
            ;
        }
        q as i64
    } else {
        let m: u64 = (-(n + 1)) as u64;
        let q: u64 = m / (d as u64);
        proof {
            lemma_fundamental_div_mod(m as int, d as int);
            let rem = (m as int) % (d as int);
            assert(n == (-(q as int) - 1) * d + (d - rem - 1)) by (nonlinear_arith)
                requires
                    m == q * d + rem,
                    n == -(m as int) - 1,
            ;
            lemma_fundamental_div_mod_converse(n as int, d as int, -(q as int) - 1, d - rem - 1);
            assert(q <= m) by (nonlinear_arith)
                requires
                    m == q * d + rem,
                    rem >= 0,
                    d >= 1,
                    q >= 0,
            ;
        }
        -(q as i64) - 1
    }
}

/// The integer square root of `n`: the largest `r` with `r * r <= n`.
pub open spec fn is_root_of(r: int, n: int) -> bool {
    0 <= r && r * r <= n < (r + 1) * (r + 1)
}

/// Below this bound the square root of a value fits in 50 bits.
pub const ROOT_BOUND: u128 = 0x10_0000_0000_0000_0000_0000_0000;

/// The integer square root of `n`, by bisection.
pub fn isqrt(n: u128) -> (r: u64)
    requires
        n < ROOT_BOUND,
    ensures
        is_root_of(r as int, n as int),
{
    let mut lo: u128 = 0;
    let mut hi: u128 = 0x4_0000_0000_0000;
    assert(hi * hi == ROOT_BOUND);
    while hi - lo > 1
        invariant
            lo < hi <= 0x4_0000_0000_0000,
            lo * lo <= n < hi * hi,
        decreases hi - lo,
    {
        let mid: u128 = lo + (hi - lo) / 2;
        assert(mid * mid <= 0x4_0000_0000_0000 * 0x4_0000_0000_0000) by (nonlinear_arith)
            requires
                mid <= 0x4_0000_0000_0000,
        ;
        if mid * mid <= n {
            lo = mid;
        } else {
            hi = mid;
        }
    }
    assert(hi == lo + 1);
    lo as u64
}

/// An integer square root is unique.
pub proof fn lemma_root_unique(a: int, b: int, n: int)
    requires
        is_root_of(a, n),
        is_root_of(b, n),
    ensures
        a == b,
{
    if a < b {
        assert((a + 1) * (a + 1) <= b * b) by (nonlinear_arith)
            requires
                0 <= a + 1 <= b,
        ;
    } else if b < a {
        assert((b + 1) * (b + 1) <= a * a) by (nonlinear_arith)
            requires
                0 <= b + 1 <= a,
        ;
    }
}

} // verus!
