//! Fixed-point plane and space geometry.
//!
//! Coordinates are `i64` milli-units confined to a box of half-width
//! [`COORD_MAX`]. Lengths are measured by integer square root of the squared
//! distance, and displacements are scaled componentwise by truncating
//! division, so every operation is exact integer arithmetic.
use vstd::prelude::*;

verus! {

/// Half-width of the coordinate box: every simulated position keeps each
/// coordinate within `[-COORD_MAX, COORD_MAX]`.
pub const COORD_MAX: i64 = 1_000_000;

/// Largest magnitude a bullet direction component can have: the difference
/// of two in-box coordinates.
pub const DIR_MAX: i64 = 2_000_000;

/// Upper bound accepted by [`isqrt`]; `2^46`, comfortably above the largest
/// squared distance the box admits (`3 * (2 * COORD_MAX)^2`).
pub const ISQRT_MAX: i64 = 0x4000_0000_0000;

/// Upper bound on square roots handed back by [`isqrt`]: `2^23`.
pub const ROOT_MAX: i64 = 0x80_0000;

/// A point or direction in space, in milli-units.
#[derive(Clone, Copy, Debug, PartialEq, Eq, Structural)]
pub struct Vec3 {
    pub x: i64,
    pub y: i64,
    pub z: i64,
}

/// A point in the horizontal plane, in milli-units.
#[derive(Clone, Copy, Debug, PartialEq, Eq, Structural)]
pub struct Vec2 {
    pub x: i64,
    pub z: i64,
}

/// The coordinate box that all simulated positions stay inside.
pub open spec fn in_box(v: Vec3) -> bool {
    &&& -COORD_MAX <= v.x <= COORD_MAX
    &&& -COORD_MAX <= v.y <= COORD_MAX
    &&& -COORD_MAX <= v.z <= COORD_MAX
}

/// The coordinate box, for plane points.
pub open spec fn in_box2(w: Vec2) -> bool {
    &&& -COORD_MAX <= w.x <= COORD_MAX
    &&& -COORD_MAX <= w.z <= COORD_MAX
}

/// Squared Euclidean distance between two space points.
pub open spec fn dist_sq(a: Vec3, b: Vec3) -> int {
    (b.x - a.x) * (b.x - a.x) + (b.y - a.y) * (b.y - a.y) + (b.z - a.z) * (b.z - a.z)
}

/// Squared distance from a space point to a plane point, measured in the
/// horizontal plane (the `y` coordinate is ignored).
pub open spec fn dist_sq_xz(p: Vec3, w: Vec2) -> int {
    (w.x - p.x) * (w.x - p.x) + (w.z - p.z) * (w.z - p.z)
}

/// `r` is the integer square root of `n`.
pub open spec fn is_isqrt(n: int, r: int) -> bool {
    &&& 0 <= r
    &&& r * r <= n
    &&& n < (r + 1) * (r + 1)
}

/// The integer square root of `n`, as a mathematical value.
pub open spec fn isqrt_spec(n: int) -> int {
    choose|r: int| is_isqrt(n, r)
}

/// Division that truncates toward zero, as the machine `/` does on `i64`.
pub open spec fn div_trunc(a: int, b: int) -> int
    recommends
        b > 0,
{
    if a >= 0 {
        a / b
    } else {
        -((-a) / b)
    }
}

/// A coordinate clamped into the box.
pub open spec fn clamp_spec(c: int) -> int {
    if c < -COORD_MAX {
        -COORD_MAX as int
    } else if c > COORD_MAX {
        COORD_MAX as int
    } else {
        c
    }
}

/// Two integer square roots of the same number are equal.
pub proof fn lemma_isqrt_unique(n: int, r1: int, r2: int)
    requires
        is_isqrt(n, r1),
        is_isqrt(n, r2),
    ensures
        r1 == r2,
{
    if r1 < r2 {
        assert((r1 + 1) * (r1 + 1) <= r2 * r2) by (nonlinear_arith)
            requires
                0 <= r1,
                r1 + 1 <= r2,
        ;
    }
    if r2 < r1 {
        assert((r2 + 1) * (r2 + 1) <= r1 * r1) by (nonlinear_arith)
            requires
                0 <= r2,
                r2 + 1 <= r1,
        ;
    }
}

/// A witness pins down [`isqrt_spec`].
pub proof fn lemma_isqrt_val(n: int, r: int)
    requires
        is_isqrt(n, r),
    ensures
        isqrt_spec(n) == r,
{
    assert(is_isqrt(n, isqrt_spec(n))) by {
        assert(exists|s: int| is_isqrt(n, s));
    }
    lemma_isqrt_unique(n, isqrt_spec(n), r);
}

/// Squared distance between two in-box space points.
pub fn distance_squared(a: &Vec3, b: &Vec3) -> (d: i64)
    requires
        in_box(*a),
        in_box(*b),
    ensures
        d == dist_sq(*a, *b),
        0 <= d <= ISQRT_MAX,
{
    let dx: i64 = b.x - a.x;
    let dy: i64 = b.y - a.y;
    let dz: i64 = b.z - a.z;
    proof {
        lemma_square_bound(dx as int, 2 * COORD_MAX as int);
        lemma_square_bound(dy as int, 2 * COORD_MAX as int);
        lemma_square_bound(dz as int, 2 * COORD_MAX as int);
    }
    dx * dx + dy * dy + dz * dz
}

/// A number of magnitude at most `m` has a square between `0` and `m * m`.
pub proof fn lemma_square_bound(a: int, m: int)
    requires
        -m <= a <= m,
        0 <= m,
    ensures
        0 <= a * a <= m * m,
{
    assert(0 <= a * a <= m * m) by (nonlinear_arith)
        requires
            -m <= a <= m,
            0 <= m,
    ;
}

/// Squared horizontal-plane distance from an in-box space point to an
/// in-box plane point.
pub fn distance_squared_xz(p: &Vec3, w: &Vec2) -> (d: i64)
    requires
        in_box(*p),
        in_box2(*w),
    ensures
        d == dist_sq_xz(*p, *w),
        0 <= d <= ISQRT_MAX,
{
    let dx: i64 = w.x - p.x;
    let dz: i64 = w.z - p.z;
    proof {
        lemma_square_bound(dx as int, 2 * COORD_MAX as int);
        lemma_square_bound(dz as int, 2 * COORD_MAX as int);
    }
    dx * dx + dz * dz
}

/// Integer square root by binary search.
pub fn isqrt(n: i64) -> (r: i64)
    requires
        0 <= n <= ISQRT_MAX,
    ensures
        is_isqrt(n as int, r as int),
        r == isqrt_spec(n as int),
        0 <= r <= ROOT_MAX,
{
    let mut lo: i64 = 0;
    let mut hi: i64 = ROOT_MAX;
    assert((ROOT_MAX + 1) * (ROOT_MAX + 1) > ISQRT_MAX) by (nonlinear_arith);
    while lo < hi
        invariant
            0 <= lo <= hi <= ROOT_MAX,
            lo * lo <= n,
            n < (hi + 1) * (hi + 1),
        decreases hi - lo,
    {
        let mid: i64 = lo + (hi - lo + 1) / 2;
        proof {
            lemma_square_bound(mid as int, ROOT_MAX as int);
        }
        if mid * mid <= n {
            lo = mid;
        } else {
            hi = mid - 1;
        }
    }
    proof {
        lemma_isqrt_val(n as int, lo as int);
    }
    lo
}

/// One component of a displacement of magnitude `step` along a vector whose
/// component here is `delta` and whose length rounds down to `len`: the
/// exact value `delta * step / len` under truncating division. The result
/// never exceeds `step` in magnitude, keeps the sign of `delta`, and, when
/// `step <= len`, never overshoots `delta` itself.
pub fn scaled_component(delta: i64, step: i64, len: i64) -> (d: i64)
    requires
        1 <= len <= ROOT_MAX,
        0 <= step <= ROOT_MAX,
        -len <= delta <= len,
    ensures
        d == div_trunc(delta * step, len as int),
        -step <= d <= step,
        0 <= delta ==> 0 <= d,
        delta <= 0 ==> d <= 0,
        step <= len && 0 <= delta ==> d <= delta,
        step <= len && delta <= 0 ==> delta <= d,
{
    if delta >= 0 {
        proof {
            lemma_square_bound(delta as int, ROOT_MAX as int);
            lemma_scaled_bounds(delta as int, step as int, len as int);
            assert(delta * step <= ROOT_MAX * ROOT_MAX) by (nonlinear_arith)
                requires
                    0 <= delta <= ROOT_MAX,
                    0 <= step <= ROOT_MAX,
            ;
        }
        let prod: i64 = delta * step;
        let q: i64 = prod / len;
        q
    } else {
        proof {
            lemma_scaled_bounds(-delta as int, step as int, len as int);
            assert((-delta) * step == -(delta * step)) by (nonlinear_arith);
            assert(0 <= -delta * step <= ROOT_MAX * ROOT_MAX) by (nonlinear_arith)
                requires
                    0 <= -delta <= ROOT_MAX,
                    0 <= step <= ROOT_MAX,
            ;
        }
        let neg: i64 = -delta;
        let prod: i64 = neg * step;
        let q: i64 = prod / len;
        -q
    }
}

/// Bounds of the scaled quotient for a nonnegative component.
proof fn lemma_scaled_bounds(delta: int, step: int, len: int)
    requires
        1 <= len,
        0 <= step,
        0 <= delta <= len,
    ensures
        0 <= (delta * step) / len <= step,
        step <= len ==> (delta * step) / len <= delta,
{
    assert(0 <= delta * step) by (nonlinear_arith)
        requires
            0 <= delta,
            0 <= step,
    ;
    assert(delta * step <= step * len) by (nonlinear_arith)
        requires
            delta <= len,
            0 <= step,
    ;
    vstd::arithmetic::div_mod::lemma_div_pos_is_pos(delta * step, len);
    vstd::arithmetic::div_mod::lemma_div_is_ordered(delta * step, step * len, len);
    vstd::arithmetic::div_mod::lemma_div_by_multiple(step, len);
    if step <= len {
        assert(delta * step <= delta * len) by (nonlinear_arith)
            requires
                step <= len,
                0 <= delta,
        ;
        vstd::arithmetic::div_mod::lemma_div_is_ordered(delta * step, delta * len, len);
        vstd::arithmetic::div_mod::lemma_div_by_multiple(delta, len);
        assert(delta * len == len * delta);
    }
}

/// Largest speed the simulation accepts, in milli-units per second.
pub const SPEED_MAX: u32 = 100_000;

/// Largest displacement one tick can ask for, in milli-units:
/// `SPEED_MAX * DELTA_MAX / 1000` for the largest tick accepted.
pub const STEP_MAX: i64 = 1_000_000;

/// The displacement magnitude one tick asks for: `speed * delta_ms / 1000`
/// milli-units, rounded down.
pub open spec fn speed_step(speed: u32, delta_ms: u64) -> int {
    ((speed as int) * (delta_ms as int)) / 1000
}

/// Compute [`speed_step`] for a bounded speed and tick.
pub fn step_of(speed: u32, delta_ms: u64) -> (step: i64)
    requires
        speed <= SPEED_MAX,
        delta_ms <= 10_000,
    ensures
        step == speed_step(speed, delta_ms),
        0 <= step <= STEP_MAX,
{
    proof {
        assert((speed as int) * (delta_ms as int) <= 1_000_000_000) by (nonlinear_arith)
            requires
                0 <= speed <= SPEED_MAX,
                0 <= delta_ms <= 10_000,
        ;
    }
    let prod: u64 = (speed as u64) * delta_ms;
    proof {
        vstd::arithmetic::div_mod::lemma_div_is_ordered(prod as int, 1_000_000_000int, 1000int);
        vstd::arithmetic::div_mod::lemma_div_pos_is_pos(prod as int, 1000int);
    }
    (prod / 1000) as i64
}

/// No nonnegative number whose square stays within `n` exceeds the integer
/// square root of `n`.
pub proof fn lemma_component_le_root(n: int, r: int, v: int)
    requires
        is_isqrt(n, r),
        0 <= v,
        v * v <= n,
    ensures
        v <= r,
{
    if v > r {
        assert((r + 1) * (r + 1) <= v * v) by (nonlinear_arith)
            requires
                0 <= r,
                r + 1 <= v,
        ;
    }
}

/// A coordinate clamped into the box.
pub fn clamp_coord(c: i64) -> (r: i64)
    requires
        -0x7000_0000_0000_0000 <= c <= 0x7000_0000_0000_0000,
    ensures
        r == clamp_spec(c as int),
        -COORD_MAX <= r <= COORD_MAX,
{
    if c < -COORD_MAX {
        -COORD_MAX
    } else if c > COORD_MAX {
        COORD_MAX
    } else {
        c
    }
}

} // verus!
