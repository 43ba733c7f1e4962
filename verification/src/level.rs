//! The level curve: a student's level is a fixed monotonic function of
//! accumulated experience, recomputed after every experience change.

use vstd::prelude::*;

verus! {

/// Integer square root, defined by counting up: adding one to the argument
/// raises the root exactly when the next perfect square is reached.
pub open spec fn isqrt_spec(n: nat) -> nat
    decreases n,
{
    if n == 0 {
        0
    } else {
        let r = isqrt_spec((n - 1) as nat);
        if (r + 1) * (r + 1) <= n {
            r + 1
        } else {
            r
        }
    }
}

/// `isqrt_spec(n)` really is the integer square root of `n`.
pub proof fn lemma_isqrt_bounds(n: nat)
    ensures
        isqrt_spec(n) * isqrt_spec(n) <= n,
        n < (isqrt_spec(n) + 1) * (isqrt_spec(n) + 1),
    decreases n,
{
    if n > 0 {
        lemma_isqrt_bounds((n - 1) as nat);
        let p = isqrt_spec((n - 1) as nat);
        if (p + 1) * (p + 1) <= n {
            assert(isqrt_spec(n) == p + 1);
            assert((p + 1) * (p + 1) < (p + 2) * (p + 2)) by (nonlinear_arith);
            assert(n - 1 < (p + 1) * (p + 1));
            assert(n < (p + 2) * (p + 2));
            assert(isqrt_spec(n) * isqrt_spec(n) <= n);
            assert(n < (isqrt_spec(n) + 1) * (isqrt_spec(n) + 1));
        } else {
            assert(isqrt_spec(n) == p);
            assert(p * p <= n - 1 <= n);
            assert(n < (p + 1) * (p + 1));
            assert(isqrt_spec(n) * isqrt_spec(n) <= n);
            assert(n < (isqrt_spec(n) + 1) * (isqrt_spec(n) + 1));
        }
    } else {
        let r = isqrt_spec(n);
        assert(r == 0);
        assert((r + 1) * (r + 1) == 1) by (nonlinear_arith)
            requires r == 0,
        ;
    }
}

/// Any `r` with `r * r <= n < (r + 1) * (r + 1)` equals `isqrt_spec(n)`.
pub proof fn lemma_isqrt_unique(n: nat, r: nat)
    requires
        r * r <= n,
        n < (r + 1) * (r + 1),
    ensures
        r == isqrt_spec(n),
{
    let s = isqrt_spec(n);
    lemma_isqrt_bounds(n);
    if r < s {
        assert((r + 1) * (r + 1) <= s * s) by (nonlinear_arith)
            requires r + 1 <= s,
        ;
    }
    if s < r {
        assert((s + 1) * (s + 1) <= r * r) by (nonlinear_arith)
            requires s + 1 <= r,
        ;
    }
}

/// The integer square root is non-decreasing.
pub proof fn lemma_isqrt_monotonic(a: nat, b: nat)
    requires
        a <= b,
    ensures
        isqrt_spec(a) <= isqrt_spec(b),
    decreases b - a,
{
    if a < b {
        lemma_isqrt_monotonic(a, (b - 1) as nat);
    }
}

/// The level owed for a given amount of experience: 1 below 100 experience,
/// and `2 + floor(sqrt(exp / 2)) + 1` from there on.
pub open spec fn spec_level_for(exp: nat) -> nat {
    if exp < 100 {
        1
    } else {
        2 + isqrt_spec(exp / 2) + 1
    }
}

/// The level curve never goes down as experience grows.
pub proof fn lemma_level_monotonic(e1: nat, e2: nat)
    requires
        e1 <= e2,
    ensures
        spec_level_for(e1) <= spec_level_for(e2),
{
    if 100 <= e1 {
        lemma_isqrt_monotonic(e1 / 2, e2 / 2);
    }
}

/// Whatever the experience, the level fits comfortably in a `u16`.
pub proof fn lemma_level_fits(exp: nat)
    requires
        exp <= u32::MAX,
    ensures
        spec_level_for(exp) <= 46343,
{
    if 100 <= exp {
        lemma_isqrt_bounds(exp / 2);
        let r = isqrt_spec(exp / 2);
        if r > 46340 {
            assert(46341 * 46341 <= r * r) by (nonlinear_arith)
                requires 46341 <= r,
            ;
        }
    }
}

fn isqrt(n: u32) -> (r: u32)
    ensures
        r == isqrt_spec(n as nat),
{
    let mut r: u64 = 0;
    let mut sq: u64 = 0;
    while sq + 2 * r + 1 <= n as u64
        invariant
            sq == r * r,
            sq <= n,
            r <= 65535,
        decreases n - sq,
    {
        proof {
            assert((r + 1) * (r + 1) == r * r + 2 * r + 1) by (nonlinear_arith);
            assert(r + 1 <= 65535) by (nonlinear_arith)
                requires (r + 1) * (r + 1) <= n, n < 0x1_0000_0000u64,
            ;
        }
        sq = sq + 2 * r + 1;
        r = r + 1;
    }
    proof {
        assert((r + 1) * (r + 1) == r * r + 2 * r + 1) by (nonlinear_arith);
        lemma_isqrt_unique(n as nat, r as nat);
    }
    r as u32
}

/// The fixed level curve shared by the scrape pipeline and the shop.
pub struct LevelSystem;

impl LevelSystem {
    /// The level owed for `exp` experience points.
    pub fn level_for_exp(&self, exp: u32) -> (level: u16)
        ensures
            level == spec_level_for(exp as nat),
    {
        proof {
            lemma_level_fits(exp as nat);
        }
        if exp < 100 {
            1
        } else {
            2 + (isqrt(exp / 2) as u16) + 1
        }
    }
}

} // verus!
