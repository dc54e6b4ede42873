//! The quarter-circle ease-out curve and the animation scale derived
//! from it, over fixed-point values in `[0, SCALE_ONE]`.

use vstd::prelude::*;

use crate::units::{SCALE_EPSILON, SCALE_ONE};

verus! {

/// Floor of the real square root of `n`, defined by recursion so that
/// contracts can speak of it directly.
pub open spec fn sqrt_floor(n: nat) -> nat
    decreases n,
{
    if n == 0 {
        0
    } else {
        let r = sqrt_floor((n - 1) as nat);
        if (r + 1) * (r + 1) <= n {
            r + 1
        } else {
            r
        }
    }
}

/// `sqrt_floor(n)` really is the floor of the square root of `n`.
pub proof fn lemma_sqrt_floor_bounds(n: nat)
    ensures
        sqrt_floor(n) * sqrt_floor(n) <= n,
        n < (sqrt_floor(n) + 1) * (sqrt_floor(n) + 1),
    decreases n,
{
    if n == 0 {
        assert(sqrt_floor(0nat) == 0);
        assert(0 < (0 + 1) * (0 + 1)) by (nonlinear_arith);
    } else {
        let p = sqrt_floor((n - 1) as nat);
        lemma_sqrt_floor_bounds((n - 1) as nat);
        if (p + 1) * (p + 1) <= n {
            assert(sqrt_floor(n) == p + 1);
            assert(n <= (p + 1) * (p + 1));
            assert((p + 1) * (p + 1) < (p + 2) * (p + 2)) by (nonlinear_arith);
            assert(n < (sqrt_floor(n) + 1) * (sqrt_floor(n) + 1));
        } else {
            assert(sqrt_floor(n) == p);
            assert(n < (sqrt_floor(n) + 1) * (sqrt_floor(n) + 1));
        }
    }
}

/// The floor square root is unique: any `r` with `r² ≤ n < (r+1)²` is
/// `sqrt_floor(n)`.
pub proof fn lemma_sqrt_floor_unique(n: nat, r: nat)
    requires
        r * r <= n,
        n < (r + 1) * (r + 1),
    ensures
        r == sqrt_floor(n),
{
    let s = sqrt_floor(n);
    lemma_sqrt_floor_bounds(n);
    if r < s {
        assert((r + 1) * (r + 1) <= s * s) by (nonlinear_arith)
            requires
                r + 1 <= s,
        ;
    }
    if s < r {
        assert((s + 1) * (s + 1) <= r * r) by (nonlinear_arith)
            requires
                s + 1 <= r,
        ;
    }
}

/// The floor square root never decreases.
pub proof fn lemma_sqrt_floor_monotonic(m: nat, n: nat)
    requires
        m <= n,
    ensures
        sqrt_floor(m) <= sqrt_floor(n),
{
    let a = sqrt_floor(m);
    let b = sqrt_floor(n);
    lemma_sqrt_floor_bounds(m);
    lemma_sqrt_floor_bounds(n);
    if b < a {
        assert((b + 1) * (b + 1) <= a * a) by (nonlinear_arith)
            requires
                b + 1 <= a,
        ;
    }
}

/// Floor integer square root, by binary search over `[0, SCALE_ONE]`.
pub fn isqrt(n: u64) -> (r: u64)
    requires
        n <= 1_000_000_000_000,
    ensures
        r == sqrt_floor(n as nat),
        r <= 1_000_000,
{
    let mut lo: u64 = 0;
    let mut hi: u64 = 1_000_001;
    while lo + 1 < hi
        invariant
            lo < hi <= 1_000_001,
            lo * lo <= n,
            n < hi * hi,
        decreases hi - lo,
    {
        let mid = lo + (hi - lo) / 2;
        proof {
            assert(mid * mid <= 1_000_001 * 1_000_001) by (nonlinear_arith)
                requires
                    mid <= 1_000_001,
            ;
        }
        if mid * mid <= n {
            lo = mid;
        } else {
            hi = mid;
        }
    }
    proof {
        lemma_sqrt_floor_unique(n as nat, lo as nat);
    }
    lo
}

/// Quarter-circle ease-out at fixed-point progress `t`: the fixed-point
/// value of `sqrt(1 - (t - 1)²)`, with `t` and the result both scaled by
/// `SCALE_ONE`.
pub open spec fn ease_spec(t: int) -> int
    recommends
        0 <= t <= SCALE_ONE,
{
    sqrt_floor((SCALE_ONE * SCALE_ONE - (SCALE_ONE - t) * (SCALE_ONE - t)) as nat) as int
}

/// Quarter-circle ease-out: starts at 0, ends at `SCALE_ONE`.
pub fn ease_out_circ(t: u64) -> (e: u64)
    requires
        t <= SCALE_ONE,
    ensures
        e == ease_spec(t as int),
        e <= SCALE_ONE,
        t == 0 ==> e == 0,
        t == SCALE_ONE ==> e == SCALE_ONE,
{
    let rest = SCALE_ONE - t;
    proof {
        assert(rest * rest <= 1_000_000_000_000) by (nonlinear_arith)
            requires
                rest <= 1_000_000,
        ;
    }
    let radicand = SCALE_ONE * SCALE_ONE - rest * rest;
    let e = isqrt(radicand);
    proof {
        if t == SCALE_ONE {
            lemma_ease_endpoints();
        }
    }
    e
}

/// The ease-out curve is 0 at the start of the animation and exactly
/// `SCALE_ONE` at its end.
pub proof fn lemma_ease_endpoints()
    ensures
        ease_spec(0) == 0,
        ease_spec(SCALE_ONE as int) == SCALE_ONE,
{
    assert(SCALE_ONE * SCALE_ONE - (SCALE_ONE - 0) * (SCALE_ONE - 0) == 0);
    assert(sqrt_floor(0nat) == 0);
    let d = SCALE_ONE as int - SCALE_ONE as int;
    assert(d * d == 0) by (nonlinear_arith)
        requires
            d == 0,
    ;
    assert(1_000_000 * 1_000_000 == 1_000_000_000_000) by (nonlinear_arith);
    assert(1_000_000_000_000 < 1_000_001 * 1_000_001) by (nonlinear_arith);
    lemma_sqrt_floor_unique(1_000_000_000_000nat, 1_000_000nat);
}

/// The ease-out curve starts at zero, ends at one, and never decreases
/// over `[0, SCALE_ONE]`.
pub proof fn lemma_ease_monotonic(t1: int, t2: int)
    requires
        0 <= t1 <= t2 <= SCALE_ONE,
    ensures
        ease_spec(t1) <= ease_spec(t2),
        ease_spec(0) == 0,
        ease_spec(SCALE_ONE as int) == SCALE_ONE,
{
    let r1 = SCALE_ONE * SCALE_ONE - (SCALE_ONE - t1) * (SCALE_ONE - t1);
    let r2 = SCALE_ONE * SCALE_ONE - (SCALE_ONE - t2) * (SCALE_ONE - t2);
    assert(0 <= r1 <= r2) by (nonlinear_arith)
        requires
            0 <= t1 <= t2 <= SCALE_ONE,
            r1 == SCALE_ONE * SCALE_ONE - (SCALE_ONE - t1) * (SCALE_ONE - t1),
            r2 == SCALE_ONE * SCALE_ONE - (SCALE_ONE - t2) * (SCALE_ONE - t2),
            SCALE_ONE == 1_000_000,
    ;
    lemma_sqrt_floor_monotonic(r1 as nat, r2 as nat);
    lemma_ease_endpoints();
}

/// The animation scale at fixed-point progress `t`:
/// `max(1 - ease(t), ε)` in fixed point.
pub open spec fn scale_spec(t: int) -> int
    recommends
        0 <= t <= SCALE_ONE,
{
    if SCALE_ONE - ease_spec(t) >= SCALE_EPSILON {
        SCALE_ONE - ease_spec(t)
    } else {
        SCALE_EPSILON as int
    }
}

/// The camera scale the animation dictates at progress `t`: full
/// zoom-out (`SCALE_ONE`) at the start, easing down to `SCALE_EPSILON`
/// at the end, never zero.
pub fn animation_scale(t: u64) -> (s: u64)
    requires
        t <= SCALE_ONE,
    ensures
        s == scale_spec(t as int),
        SCALE_EPSILON <= s <= SCALE_ONE,
        t == 0 ==> s == SCALE_ONE,
        t == SCALE_ONE ==> s == SCALE_EPSILON,
{
    let e = ease_out_circ(t);
    let raw = SCALE_ONE - e;
    if raw >= SCALE_EPSILON {
        raw
    } else {
        SCALE_EPSILON
    }
}

/// The scale starts at full zoom-out, never increases as the animation
/// progresses, bottoms out at `SCALE_EPSILON`, and never reaches zero.
pub proof fn lemma_scale_monotonic(t1: int, t2: int)
    requires
        0 <= t1 <= t2 <= SCALE_ONE,
    ensures
        scale_spec(t2) <= scale_spec(t1),
        scale_spec(0) == SCALE_ONE,
        scale_spec(SCALE_ONE as int) == SCALE_EPSILON,
        SCALE_EPSILON <= scale_spec(t1) <= SCALE_ONE,
        SCALE_EPSILON <= scale_spec(t2) <= SCALE_ONE,
{
    lemma_ease_monotonic(t1, t2);
    lemma_ease_monotonic(t2, SCALE_ONE as int);
    lemma_ease_monotonic(0, t1);
}

} // verus!
