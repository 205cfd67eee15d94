//! Fixed-point vectors and the few vector operations the simulation needs.

use vstd::prelude::*;

verus! {

/// One world unit in fixed point.
pub const UNIT: i64 = 1000;

/// Half the extent of the representable world box on each axis.
pub const WORLD_LIMIT: i64 = 1_000_000_000;

/// Precision factor for square roots taken while normalising a vector.
pub const SQRT_SCALE: i64 = 1024;

/// Largest speed (milli-units per second) a vector is ever scaled to.
pub const SPEED_LIMIT: i64 = 4 * WORLD_LIMIT;

/// A point or a direction in world space, in milli-units.
/// `x` is the longitudinal axis (forward is negative), `y` is up and `z` is
/// the lateral axis of the lane.
#[derive(Clone, Copy, Debug, PartialEq, Eq, Structural)]
pub struct Vec3 {
    pub x: i64,
    pub y: i64,
    pub z: i64,
}

pub open spec fn abs(a: int) -> int {
    if a < 0 { -a } else { a }
}

pub open spec fn in_box(a: int, bound: int) -> bool {
    -bound <= a <= bound
}

/// Every coordinate of `v` lies inside the world box.
pub open spec fn in_world(v: Vec3) -> bool {
    in_box(v.x as int, WORLD_LIMIT as int) && in_box(v.y as int, WORLD_LIMIT as int) && in_box(
        v.z as int,
        WORLD_LIMIT as int,
    )
}

pub open spec fn vec3(x: int, y: int, z: int) -> Vec3 {
    Vec3 { x: x as i64, y: y as i64, z: z as i64 }
}

pub open spec fn norm2(x: int, y: int, z: int) -> int {
    x * x + y * y + z * z
}

/// Squared length of `v`.
pub open spec fn len2(v: Vec3) -> int {
    norm2(v.x as int, v.y as int, v.z as int)
}

/// Squared distance between `a` and `b`.
pub open spec fn dist2(a: Vec3, b: Vec3) -> int {
    norm2(a.x - b.x, a.y - b.y, a.z - b.z)
}

pub open spec fn is_zero(v: Vec3) -> bool {
    v.x == 0 && v.y == 0 && v.z == 0
}

pub open spec fn clamp_int(a: int, lo: int, hi: int) -> int {
    if a < lo { lo } else if a > hi { hi } else { a }
}

/// Division rounding toward zero, as Rust's `/` on signed integers does.
pub open spec fn div_trunc(a: int, b: int) -> int {
    if a >= 0 { a / b } else { -((-a) / b) }
}

pub open spec fn is_floor_sqrt(r: int, n: int) -> bool {
    0 <= r && r * r <= n < (r + 1) * (r + 1)
}

/// The integer square root of `n`, rounded down.
pub open spec fn floor_sqrt(n: int) -> int {
    choose|r: int| is_floor_sqrt(r, n)
}

/// The component of a vector of length `len` after scaling it to `speed`.
pub open spec fn scaled_component(c: int, speed: int, len: int) -> int {
    div_trunc(c * speed * SQRT_SCALE, len)
}

/// `v` rescaled to length `speed`: each component is `c * speed / |v|`,
/// rounded toward zero, with `|v|` taken to a precision of 1/1024.
pub open spec fn scaled_to(v: Vec3, speed: int) -> Vec3 {
    let len = floor_sqrt(len2(v) * SQRT_SCALE * SQRT_SCALE);
    vec3(
        scaled_component(v.x as int, speed, len),
        scaled_component(v.y as int, speed, len),
        scaled_component(v.z as int, speed, len),
    )
}

proof fn lemma_floor_sqrt_unique(r: int, s: int, n: int)
    requires
        is_floor_sqrt(r, n),
        is_floor_sqrt(s, n),
    ensures
        r == s,
{
    if r < s {
        assert((r + 1) * (r + 1) <= s * s) by (nonlinear_arith)
            requires
                0 <= r < s,
        ;
    } else if s < r {
        assert((s + 1) * (s + 1) <= r * r) by (nonlinear_arith)
            requires
                0 <= s < r,
        ;
    }
}

proof fn lemma_floor_sqrt_is(r: int, n: int)
    requires
        is_floor_sqrt(r, n),
    ensures
        floor_sqrt(n) == r,
{
    let s = floor_sqrt(n);
    assert(is_floor_sqrt(s, n));
    lemma_floor_sqrt_unique(r, s, n);
}

/// Integer square root by bisection.
pub fn isqrt(n: u128) -> (r: u128)
    requires
        n < 0x1_0000_0000_0000_0000_0000_0000,
    ensures
        r == floor_sqrt(n as int),
        is_floor_sqrt(r as int, n as int),
        r < 0x4_0000_0000_0000,
{
    let mut lo: u128 = 0;
    let mut hi: u128 = 0x4_0000_0000_0000;
    assert(hi * hi == 0x10_0000_0000_0000_0000_0000_0000);
    while hi - lo > 1
        invariant
            lo < hi <= 0x4_0000_0000_0000,
            lo * lo <= n < hi * hi,
        decreases hi - lo,
    {
        let mid: u128 = lo + (hi - lo) / 2;
        assert(mid * mid <= 0x10_0000_0000_0000_0000_0000_0000) by (nonlinear_arith)
            requires
                mid <= 0x4_0000_0000_0000,
        ;
        if mid * mid <= n {
            lo = mid;
        } else {
            hi = mid;
        }
    }
    assert(lo + 1 == hi);
    proof {
        lemma_floor_sqrt_is(lo as int, n as int);
    }
    lo
}

/// Rust's signed division of `a` by a positive `b`.
pub fn div_toward_zero(a: i128, b: i128) -> (r: i128)
    requires
        b > 0,
        a > i128::MIN,
    ensures
        r == div_trunc(a as int, b as int),
{
    if a >= 0 {
        a / b
    } else {
        -((-a) / b)
    }
}

/// The exact point `(x, y, z)` with each coordinate clamped into the world
/// box.
pub open spec fn world_point(x: int, y: int, z: int) -> Vec3 {
    vec3(
        clamp_int(x, -WORLD_LIMIT, WORLD_LIMIT as int),
        clamp_int(y, -WORLD_LIMIT, WORLD_LIMIT as int),
        clamp_int(z, -WORLD_LIMIT, WORLD_LIMIT as int),
    )
}

/// Clamps an exact coordinate into `[lo, hi]`.
pub fn clamp_i128(a: i128, lo: i64, hi: i64) -> (r: i64)
    requires
        lo <= hi,
    ensures
        r == clamp_int(a as int, lo as int, hi as int),
{
    if a < lo as i128 {
        lo
    } else if a > hi as i128 {
        hi
    } else {
        a as i64
    }
}

/// Squared length of a vector inside the world box.
pub fn length_squared(v: Vec3) -> (r: u128)
    requires
        in_box(v.x as int, 2 * WORLD_LIMIT),
        in_box(v.y as int, 2 * WORLD_LIMIT),
        in_box(v.z as int, 2 * WORLD_LIMIT),
    ensures
        r == len2(v),
        r <= 12 * WORLD_LIMIT * WORLD_LIMIT,
{
    let x = v.x as i128;
    let y = v.y as i128;
    let z = v.z as i128;
    assert(x * x <= 4 * WORLD_LIMIT * WORLD_LIMIT) by (nonlinear_arith)
        requires
            in_box(x as int, 2 * WORLD_LIMIT),
    ;
    assert(y * y <= 4 * WORLD_LIMIT * WORLD_LIMIT) by (nonlinear_arith)
        requires
            in_box(y as int, 2 * WORLD_LIMIT),
    ;
    assert(z * z <= 4 * WORLD_LIMIT * WORLD_LIMIT) by (nonlinear_arith)
        requires
            in_box(z as int, 2 * WORLD_LIMIT),
    ;
    assert(0 <= x * x && 0 <= y * y && 0 <= z * z) by (nonlinear_arith);
    (x * x + y * y + z * z) as u128
}

/// `a - b`, for two points of the world box.
pub fn difference(a: Vec3, b: Vec3) -> (r: Vec3)
    requires
        in_world(a),
        in_world(b),
    ensures
        r == vec3(a.x - b.x, a.y - b.y, a.z - b.z),
        in_box(r.x as int, 2 * WORLD_LIMIT),
        in_box(r.y as int, 2 * WORLD_LIMIT),
        in_box(r.z as int, 2 * WORLD_LIMIT),
{
    Vec3 { x: a.x - b.x, y: a.y - b.y, z: a.z - b.z }
}

proof fn lemma_component_le_len(c: int, n: int, len: int)
    requires
        0 <= c * c * SQRT_SCALE * SQRT_SCALE <= n,
        is_floor_sqrt(len, n),
    ensures
        abs(c) * SQRT_SCALE <= len,
{
    let a = abs(c) * SQRT_SCALE;
    assert(a * a == c * c * SQRT_SCALE * SQRT_SCALE) by (nonlinear_arith)
        requires
            a == abs(c) * SQRT_SCALE,
    ;
    if a > len {
        assert((len + 1) * (len + 1) <= a * a) by (nonlinear_arith)
            requires
                0 <= len < a,
        ;
    }
}

proof fn lemma_scaled_component_bound(c: int, speed: int, len: int)
    requires
        0 <= speed,
        0 < len,
        abs(c) * SQRT_SCALE <= len,
    ensures
        abs(scaled_component(c, speed, len)) <= speed,
{
    let a = abs(c) * speed * SQRT_SCALE;
    assert(a <= speed * len) by (nonlinear_arith)
        requires
            abs(c) * SQRT_SCALE <= len,
            0 <= speed,
            a == abs(c) * speed * SQRT_SCALE,
    ;
    assert(a / len <= speed) by (nonlinear_arith)
        requires
            0 <= a <= speed * len,
            0 < len,
    ;
    if c >= 0 {
        assert(c * speed * SQRT_SCALE == a);
    } else {
        assert(-(c * speed * SQRT_SCALE) == a) by (nonlinear_arith)
            requires
                c < 0,
                a == abs(c) * speed * SQRT_SCALE,
        ;
    }
}

/// `v` rescaled to length `speed` (see `scaled_to`). Every component of the
/// result lies within `[-speed, speed]`.
pub fn scale_to(v: Vec3, speed: i64) -> (r: Vec3)
    requires
        in_box(v.x as int, 2 * WORLD_LIMIT),
        in_box(v.y as int, 2 * WORLD_LIMIT),
        in_box(v.z as int, 2 * WORLD_LIMIT),
        !is_zero(v),
        0 <= speed <= SPEED_LIMIT,
    ensures
        r == scaled_to(v, speed as int),
        in_box(r.x as int, speed as int),
        in_box(r.y as int, speed as int),
        in_box(r.z as int, speed as int),
{
    let n2 = length_squared(v);
    assert(n2 > 0) by (nonlinear_arith)
        requires
            n2 == v.x * v.x + v.y * v.y + v.z * v.z,
            !is_zero(v),
    ;
    let scaled: u128 = n2 * 1024 * 1024;
    let len = isqrt(scaled);
    let ghost n = scaled as int;
    assert(len > 0) by (nonlinear_arith)
        requires
            n >= 1,
            is_floor_sqrt(len as int, n),
    ;
    proof {
        assert(is_floor_sqrt(len as int, n));
        let (x, y, z) = (v.x as int, v.y as int, v.z as int);
        assert(0 <= x * x && 0 <= y * y && 0 <= z * z) by (nonlinear_arith);
        assert(x * x * SQRT_SCALE * SQRT_SCALE <= n) by (nonlinear_arith)
            requires n == (x * x + y * y + z * z) * 1024 * 1024, 0 <= y * y, 0 <= z * z;
        assert(y * y * SQRT_SCALE * SQRT_SCALE <= n) by (nonlinear_arith)
            requires n == (x * x + y * y + z * z) * 1024 * 1024, 0 <= x * x, 0 <= z * z;
        assert(z * z * SQRT_SCALE * SQRT_SCALE <= n) by (nonlinear_arith)
            requires n == (x * x + y * y + z * z) * 1024 * 1024, 0 <= y * y, 0 <= x * x;
        assert(0 <= x * x * SQRT_SCALE * SQRT_SCALE) by (nonlinear_arith) requires 0 <= x * x;
        assert(0 <= y * y * SQRT_SCALE * SQRT_SCALE) by (nonlinear_arith) requires 0 <= y * y;
        assert(0 <= z * z * SQRT_SCALE * SQRT_SCALE) by (nonlinear_arith) requires 0 <= z * z;
        lemma_component_le_len(x, n, len as int);
        lemma_component_le_len(y, n, len as int);
        lemma_component_le_len(z, n, len as int);
        lemma_scaled_component_bound(x, speed as int, len as int);
        lemma_scaled_component_bound(y, speed as int, len as int);
        lemma_scaled_component_bound(z, speed as int, len as int);
        lemma_floor_sqrt_is(len as int, len2(v) * SQRT_SCALE * SQRT_SCALE);
    }
    let l = len as i128;
    let s = speed as i128;
    assert(abs(v.x * s) <= 2 * WORLD_LIMIT * SPEED_LIMIT) by (nonlinear_arith)
        requires in_box(v.x as int, 2 * WORLD_LIMIT), 0 <= s <= SPEED_LIMIT;
    assert(abs(v.y * s) <= 2 * WORLD_LIMIT * SPEED_LIMIT) by (nonlinear_arith)
        requires in_box(v.y as int, 2 * WORLD_LIMIT), 0 <= s <= SPEED_LIMIT;
    assert(abs(v.z * s) <= 2 * WORLD_LIMIT * SPEED_LIMIT) by (nonlinear_arith)
        requires in_box(v.z as int, 2 * WORLD_LIMIT), 0 <= s <= SPEED_LIMIT;
    let x = div_toward_zero(v.x as i128 * s * 1024, l);
    let y = div_toward_zero(v.y as i128 * s * 1024, l);
    let z = div_toward_zero(v.z as i128 * s * 1024, l);
    Vec3 { x: x as i64, y: y as i64, z: z as i64 }
}

/// Clamps each coordinate of an exact point into the world box.
pub fn clamp_to_world(x: i128, y: i128, z: i128) -> (r: Vec3)
    ensures
        r == world_point(x as int, y as int, z as int),
        in_world(r),
{
    Vec3 {
        x: clamp_i128(x, -WORLD_LIMIT, WORLD_LIMIT),
        y: clamp_i128(y, -WORLD_LIMIT, WORLD_LIMIT),
        z: clamp_i128(z, -WORLD_LIMIT, WORLD_LIMIT),
    }
}

} // verus!
