//! Range remapping on integers.
//!
//! A value `v` of a source interval with ends `a` and `b` is carried to the
//! destination interval with ends `c` and `d` by the affine map
//! `c + (v - a) / (b - a) * (d - c)`. All quantities here are integers (plain
//! counts or fixed-point numbers of one common scale), so the map returns the
//! greatest integer that does not exceed the exact rational value. Nothing is
//! clamped: a value outside the source interval lands outside the destination.

use vstd::prelude::*;
use vstd::arithmetic::div_mod::{
    lemma_div_is_ordered, lemma_div_multiples_vanish, lemma_fundamental_div_mod,
    lemma_fundamental_div_mod_converse, lemma_hoist_over_denominator, lemma_mod_bound,
};
use vstd::arithmetic::mul::lemma_mul_inequality;

verus! {

/// The remapped value: the floor of `c + (v - a) * (d - c) / (b - a)`.
///
/// The divisor is kept positive, so that the quotient rounds toward negative
/// infinity for either orientation of the source interval. Meaningless when
/// `a == b`.
pub open spec fn map_range_spec(v: int, a: int, b: int, c: int, d: int) -> int {
    if a < b {
        c + ((v - a) * (d - c)) / (b - a)
    } else {
        c + ((a - v) * (d - c)) / (a - b)
    }
}

/// Whether `x` lies between `p` and `q`, whichever of the two is smaller.
pub open spec fn between(x: int, p: int, q: int) -> bool {
    (p <= x <= q) || (q <= x <= p)
}

/// Whether the source interval `[a, b]` and the destination interval `[c, d]`
/// run the same way (the destination may be a single point).
pub open spec fn same_direction(a: int, b: int, c: int, d: int) -> bool {
    (a < b && c <= d) || (b < a && d <= c)
}

/// Whether the two intervals run opposite ways.
pub open spec fn opposite_direction(a: int, b: int, c: int, d: int) -> bool {
    (a < b && d <= c) || (b < a && c <= d)
}

/// The quotient `n / m` rounded toward negative infinity.
fn floor_div(n: i128, m: i128) -> (q: i128)
    requires
        0 < m,
        i128::MIN < n,
    ensures
        q == n as int / m as int,
        n >= 0 ==> 0 <= q <= n,
        n < 0 ==> n <= q < 0,
{
    if n >= 0 {
        let q = n / m;
        proof {
            lemma_fundamental_div_mod(n as int, m as int);
            lemma_mod_bound(n as int, m as int);
            assert(q <= n) by (nonlinear_arith)
                requires
                    n == m * q + (n as int % m as int),
                    0 <= (n as int % m as int),
                    m >= 1,
                    q >= 0,
            ;
        }
        q
    } else {
        let p: i128 = -n - 1;
        let k: i128 = p / m;
        proof {
            let r = p as int % m as int;
            lemma_fundamental_div_mod(p as int, m as int);
            lemma_mod_bound(p as int, m as int);
            assert(k <= p) by (nonlinear_arith)
                requires
                    p == m * k + r,
                    0 <= r,
                    m >= 1,
                    k >= 0,
            ;
            assert(n as int == (-k - 1) * m + (m - 1 - r)) by (nonlinear_arith)
                requires
                    p == m * k + r,
                    n == -p - 1,
            ;
            lemma_fundamental_div_mod_converse(n as int, m as int, -k - 1, m - 1 - r);
        }
        -k - 1
    }
}

/// Remaps `v` from the interval with ends `a`, `b` to the one with ends `c`,
/// `d`, in a type wide enough for every outcome.
pub fn map_range_wide(v: i32, a: i32, b: i32, c: i32, d: i32) -> (r: i128)
    requires
        a != b,
    ensures
        r == map_range_spec(v as int, a as int, b as int, c as int, d as int),
{
    let rise: i128 = d as i128 - c as i128;
    let run: i128 = if a < b {
        b as i128 - a as i128
    } else {
        a as i128 - b as i128
    };
    let reach: i128 = if a < b {
        v as i128 - a as i128
    } else {
        a as i128 - v as i128
    };
    assert(-0x1_0000_0000_0000_0000 <= reach * rise <= 0x1_0000_0000_0000_0000)
        by (nonlinear_arith)
        requires
            -0x1_0000_0000 <= reach <= 0x1_0000_0000,
            -0x1_0000_0000 <= rise <= 0x1_0000_0000,
    ;
    let scaled: i128 = reach * rise;
    let q = floor_div(scaled, run);
    c as i128 + q
}

/// Remaps `v` from the interval with ends `a`, `b` to the one with ends `c`,
/// `d`; `None` when the remapped value does not fit the scalar type.
pub fn map_range(v: i32, a: i32, b: i32, c: i32, d: i32) -> (r: Option<i32>)
    requires
        a != b,
    ensures
        r == (if i32::MIN <= map_range_spec(v as int, a as int, b as int, c as int, d as int)
            <= i32::MAX {
            Some(map_range_spec(v as int, a as int, b as int, c as int, d as int) as i32)
        } else {
            None
        }),
{
    let wide = map_range_wide(v, a, b, c, d);
    if wide < i32::MIN as i128 || wide > i32::MAX as i128 {
        None
    } else {
        Some(wide as i32)
    }
}

/// The ends of the source interval are carried to the ends of the
/// destination interval: `a` to `c` and `b` to `d`.
pub proof fn lemma_map_range_endpoints(a: int, b: int, c: int, d: int)
    requires
        a != b,
    ensures
        map_range_spec(a, a, b, c, d) == c,
        map_range_spec(b, a, b, c, d) == d,
{
    let run = if a < b { b - a } else { a - b };
    assert(run > 0);
    assert((a - a) * (d - c) == 0) by (nonlinear_arith);
    assert(0int / run == 0) by {
        vstd::arithmetic::div_mod::lemma_div_of0(run);
    }
    lemma_div_multiples_vanish(d - c, run);
}

/// The map is the exact affine interpolation rounded down: the result is the
/// one integer `r` with `r - c <= (v - a) * (d - c) / (b - a) < r - c + 1`,
/// written here without division.
pub proof fn lemma_map_range_affine(v: int, a: int, b: int, c: int, d: int)
    requires
        a != b,
    ensures
        ({
            let r = map_range_spec(v, a, b, c, d);
            &&& a < b ==> (r - c) * (b - a) <= (v - a) * (d - c) < (r - c + 1) * (b - a)
            &&& b < a ==> (r - c) * (a - b) <= (a - v) * (d - c) < (r - c + 1) * (a - b)
        }),
{
    let run = if a < b { b - a } else { a - b };
    let scaled = if a < b { (v - a) * (d - c) } else { (a - v) * (d - c) };
    let q = scaled / run;
    lemma_fundamental_div_mod(scaled, run);
    lemma_mod_bound(scaled, run);
    assert(q * run <= scaled < (q + 1) * run) by (nonlinear_arith)
        requires
            scaled == run * q + (scaled % run),
            0 <= (scaled % run) < run,
    ;
}

/// Where the exact affine value is an integer, the map returns it: whenever
/// `(r - c) * (b - a) == (v - a) * (d - c)`, the result is `r`.
pub proof fn lemma_map_range_exact(v: int, a: int, b: int, c: int, d: int, r: int)
    requires
        a != b,
        (r - c) * (b - a) == (v - a) * (d - c),
    ensures
        map_range_spec(v, a, b, c, d) == r,
{
    if a < b {
        assert((v - a) * (d - c) == (r - c) * (b - a) + 0);
        lemma_fundamental_div_mod_converse((v - a) * (d - c), b - a, r - c, 0);
    } else {
        assert((a - v) * (d - c) == (r - c) * (a - b) + 0) by (nonlinear_arith)
            requires
                (r - c) * (b - a) == (v - a) * (d - c),
        ;
        lemma_fundamental_div_mod_converse((a - v) * (d - c), a - b, r - c, 0);
    }
}

/// A step of one source-interval length moves the result by exactly one
/// destination-interval length.
pub proof fn lemma_map_range_step(v: int, a: int, b: int, c: int, d: int)
    requires
        a != b,
    ensures
        map_range_spec(v + (b - a), a, b, c, d) == map_range_spec(v, a, b, c, d) + (d - c),
{
    if a < b {
        let run = b - a;
        let x = (v - a) * (d - c);
        assert((v + (b - a) - a) * (d - c) == x + (d - c) * run) by (nonlinear_arith)
            requires
                run == b - a,
                x == (v - a) * (d - c),
        ;
        lemma_hoist_over_denominator(x, d - c, run as nat);
    } else {
        let run = a - b;
        let x = (a - v) * (d - c);
        assert((a - (v + (b - a))) * (d - c) == x + (d - c) * run) by (nonlinear_arith)
            requires
                run == a - b,
                x == (a - v) * (d - c),
        ;
        lemma_hoist_over_denominator(x, d - c, run as nat);
    }
}

/// Where the two intervals run the same way, the map never decreases.
pub proof fn lemma_map_range_monotonic(v1: int, v2: int, a: int, b: int, c: int, d: int)
    requires
        same_direction(a, b, c, d),
        v1 <= v2,
    ensures
        map_range_spec(v1, a, b, c, d) <= map_range_spec(v2, a, b, c, d),
{
    if a < b {
        lemma_mul_inequality(v1 - a, v2 - a, d - c);
        lemma_div_is_ordered((v1 - a) * (d - c), (v2 - a) * (d - c), b - a);
    } else {
        assert((a - v1) * (d - c) <= (a - v2) * (d - c)) by (nonlinear_arith)
            requires
                v1 <= v2,
                d - c <= 0,
        ;
        lemma_div_is_ordered((a - v1) * (d - c), (a - v2) * (d - c), a - b);
    }
}

/// Where the two intervals run opposite ways, the map never increases.
pub proof fn lemma_map_range_antitonic(v1: int, v2: int, a: int, b: int, c: int, d: int)
    requires
        opposite_direction(a, b, c, d),
        v1 <= v2,
    ensures
        map_range_spec(v2, a, b, c, d) <= map_range_spec(v1, a, b, c, d),
{
    if a < b {
        assert((v2 - a) * (d - c) <= (v1 - a) * (d - c)) by (nonlinear_arith)
            requires
                v1 <= v2,
                d - c <= 0,
        ;
        lemma_div_is_ordered((v2 - a) * (d - c), (v1 - a) * (d - c), b - a);
    } else {
        lemma_mul_inequality(a - v2, a - v1, d - c);
        lemma_div_is_ordered((a - v2) * (d - c), (a - v1) * (d - c), a - b);
    }
}

/// A value inside the source interval is carried inside the destination
/// interval.
pub proof fn lemma_map_range_between(v: int, a: int, b: int, c: int, d: int)
    requires
        a != b,
        between(v, a, b),
    ensures
        between(map_range_spec(v, a, b, c, d), c, d),
{
    lemma_map_range_endpoints(a, b, c, d);
    let lo = if a < b { a } else { b };
    let hi = if a < b { b } else { a };
    if same_direction(a, b, c, d) {
        lemma_map_range_monotonic(lo, v, a, b, c, d);
        lemma_map_range_monotonic(v, hi, a, b, c, d);
    } else {
        lemma_map_range_antitonic(lo, v, a, b, c, d);
        lemma_map_range_antitonic(v, hi, a, b, c, d);
    }
}

} // verus!
