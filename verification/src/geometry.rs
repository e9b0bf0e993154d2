//! Points of the drawing canvas and the whole-pixel distance between them.
use vstd::prelude::*;

verus! {

/// A point of the canvas: horizontal, then vertical offset from its corner.
pub type Coord = (i32, i32);

/// The radius of a circle, in pixels.
pub type Radius = i32;

/// The square of the euclidean distance between two points.
pub open spec fn sq_dist(a: Coord, b: Coord) -> int {
    (a.0 - b.0) * (a.0 - b.0) + (a.1 - b.1) * (a.1 - b.1)
}

/// The distance of two points is computed in 32-bit integers: both
/// differences and the sum of their squares fit.
pub open spec fn distance_fits(a: Coord, b: Coord) -> bool {
    &&& i32::MIN <= a.0 - b.0 <= i32::MAX
    &&& i32::MIN <= a.1 - b.1 <= i32::MAX
    &&& sq_dist(a, b) <= i32::MAX
}

/// The square root of `n`, rounded down.
pub open spec fn isqrt(n: nat) -> nat
    decreases n,
{
    if n == 0 {
        0
    } else {
        let r = isqrt((n - 1) as nat);
        if (r + 1) * (r + 1) <= n {
            (r + 1) as nat
        } else {
            r
        }
    }
}

/// `r` is the square root of `n`, rounded down.
pub open spec fn is_isqrt(n: int, r: int) -> bool {
    0 <= r && r * r <= n < (r + 1) * (r + 1)
}

/// The distance of two points, in whole pixels, rounded down.
pub open spec fn dist(a: Coord, b: Coord) -> int {
    isqrt(sq_dist(a, b) as nat) as int
}

proof fn lemma_square_step(r: int)
    requires
        r >= 0,
    ensures
        (r + 1) * (r + 1) < (r + 2) * (r + 2),
        r * r < (r + 1) * (r + 1),
{
    assert((r + 1) * (r + 1) < (r + 2) * (r + 2)) by (nonlinear_arith)
        requires
            r >= 0,
    ;
    assert(r * r < (r + 1) * (r + 1)) by (nonlinear_arith)
        requires
            r >= 0,
    ;
}

/// `isqrt` is the rounded-down square root.
pub proof fn lemma_isqrt(n: nat)
    ensures
        is_isqrt(n as int, isqrt(n) as int),
    decreases n,
{
    if n > 0 {
        lemma_isqrt((n - 1) as nat);
        let r = isqrt((n - 1) as nat);
        lemma_square_step(r as int);
    }
}

/// A rounded-down square root is unique.
pub proof fn lemma_isqrt_unique(n: int, r1: int, r2: int)
    requires
        is_isqrt(n, r1),
        is_isqrt(n, r2),
    ensures
        r1 == r2,
{
    if r1 < r2 {
        assert((r1 + 1) * (r1 + 1) <= r2 * r2) by (nonlinear_arith)
            requires
                0 <= r1 < r2,
        ;
    } else if r2 < r1 {
        assert((r2 + 1) * (r2 + 1) <= r1 * r1) by (nonlinear_arith)
            requires
                0 <= r2 < r1,
        ;
    }
}

/// The square of a distance is never negative.
pub proof fn lemma_sq_dist_nonneg(a: Coord, b: Coord)
    ensures
        sq_dist(a, b) >= 0,
{
    let dx = a.0 - b.0;
    let dy = a.1 - b.1;
    assert(dx * dx + dy * dy >= 0) by (nonlinear_arith);
}

/// A point lies within `r` of another exactly when the square of their
/// distance is below `(r + 1)` squared.
pub proof fn lemma_dist_le(a: Coord, b: Coord, r: int)
    requires
        r >= 0,
    ensures
        dist(a, b) <= r <==> sq_dist(a, b) < (r + 1) * (r + 1),
{
    let n = sq_dist(a, b);
    lemma_sq_dist_nonneg(a, b);
    lemma_isqrt(n as nat);
    let s = isqrt(n as nat) as int;
    if s <= r {
        assert((s + 1) * (s + 1) <= (r + 1) * (r + 1)) by (nonlinear_arith)
            requires
                0 <= s <= r,
        ;
    } else {
        assert((r + 1) * (r + 1) <= s * s) by (nonlinear_arith)
            requires
                0 <= r < s,
        ;
    }
}

/// The square root of `n`, rounded down, by bisection.
fn floor_sqrt(n: i32) -> (r: i32)
    requires
        n >= 0,
    ensures
        r == isqrt(n as nat),
{
    let mut lo: i64 = 0;
    let mut hi: i64 = 46341;
    assert(46341 * 46341 > i32::MAX) by (nonlinear_arith);
    while lo + 1 < hi
        invariant
            0 <= lo < hi <= 46341,
            lo * lo <= n,
            n < hi * hi,
        decreases hi - lo,
    {
        let mid: i64 = lo + (hi - lo) / 2;
        assert(mid * mid <= 46341 * 46341) by (nonlinear_arith)
            requires
                0 <= mid <= 46341,
        ;
        if mid * mid <= n as i64 {
            lo = mid;
        } else {
            hi = mid;
        }
    }
    proof {
        lemma_isqrt(n as nat);
        lemma_isqrt_unique(n as int, lo as int, isqrt(n as nat) as int);
    }
    lo as i32
}

/// The distance of two points in whole pixels: the square root of the sum of
/// the squared differences, rounded down.
pub fn distance(a: Coord, b: Coord) -> (d: i32)
    requires
        distance_fits(a, b),
    ensures
        d == dist(a, b),
        d >= 0,
{
    let dx: i32 = a.0 - b.0;
    let dy: i32 = a.1 - b.1;
    assert(dx * dx >= 0 && dy * dy >= 0) by (nonlinear_arith);
    let n: i32 = dx * dx + dy * dy;
    floor_sqrt(n)
}

} // verus!
