//! Integer square roots and the scaled direction vectors that steering uses.

use vstd::prelude::*;
use crate::components::Vec2;

verus! {

/// Sub-unit resolution with which a vector's length is measured before a
/// direction is scaled by a speed.
pub const PRECISION: u64 = 65536;

/// `r` is the largest integer whose square does not exceed `n`.
pub open spec fn is_floor_sqrt(n: int, r: int) -> bool {
    0 <= r && r * r <= n && n < (r + 1) * (r + 1)
}

/// The integer square root of `n`, rounded down.
pub open spec fn floor_sqrt(n: int) -> int {
    choose|r: int| is_floor_sqrt(n, r)
}

/// The integer square root of `n`, rounded up.
pub open spec fn ceil_sqrt(n: int) -> int {
    let r = floor_sqrt(n);
    if r * r == n {
        r
    } else {
        r + 1
    }
}

/// The absolute value of an integer.
pub open spec fn abs(a: int) -> int {
    if a >= 0 {
        a
    } else {
        -a
    }
}

/// The larger of two integers.
pub open spec fn max(a: int, b: int) -> int {
    if a >= b {
        a
    } else {
        b
    }
}

/// Length of the vector `(dx, dy)` in units of `1 / PRECISION`, rounded up.
pub open spec fn fine_length(dx: int, dy: int) -> int {
    ceil_sqrt((dx * dx + dy * dy) * (PRECISION * PRECISION))
}

/// One component of a direction scaled to a speed: `d * speed` divided by
/// the vector's length times `scale`, rounded toward zero.
pub open spec fn scaled_component(d: int, len: int, speed: int, scale: int) -> int {
    if d >= 0 {
        (d * speed * PRECISION) / (len * scale)
    } else {
        -(((-d) * speed * PRECISION) / (len * scale))
    }
}

/// The velocity of the given speed along `(dx, dy)`.
pub open spec fn scaled_direction_spec(dx: int, dy: int, speed: int, scale: int) -> (int, int) {
    let len = fine_length(dx, dy);
    (scaled_component(dx, len, speed, scale), scaled_component(dy, len, speed, scale))
}

/// At most one integer is the rounded-down square root of `n`.
pub proof fn lemma_floor_sqrt_unique(n: int, a: int, b: int)
    requires
        is_floor_sqrt(n, a),
        is_floor_sqrt(n, b),
    ensures
        a == b,
{
    assert(a < b ==> (a + 1) * (a + 1) <= b * b) by (nonlinear_arith)
        requires
            0 <= a,
            0 <= b,
    ;
    assert(b < a ==> (b + 1) * (b + 1) <= a * a) by (nonlinear_arith)
        requires
            0 <= a,
            0 <= b,
    ;
}

/// The rounded-up square root is the least integer whose square reaches `n`.
pub proof fn lemma_ceil_sqrt_bounds(n: int, r: int)
    requires
        is_floor_sqrt(n, r),
    ensures
        ceil_sqrt(n) == (if r * r == n { r } else { r + 1 }),
        ceil_sqrt(n) * ceil_sqrt(n) >= n,
        n > 0 ==> ceil_sqrt(n) >= 1 && (ceil_sqrt(n) - 1) * (ceil_sqrt(n) - 1) < n,
{
    lemma_floor_sqrt_unique(n, floor_sqrt(n), r);
    assert(n > 0 && r * r == n ==> (r - 1) * (r - 1) < r * r) by (nonlinear_arith)
        requires
            0 <= r,
    ;
}

/// Computes the integer square root of `n`, rounded down.
pub fn isqrt(n: u128) -> (r: u64)
    ensures
        is_floor_sqrt(n as int, r as int),
        r as int == floor_sqrt(n as int),
{
    let mut lo: u128 = 0;
    let mut hi: u128 = 0x1_0000_0000_0000_0000;
    assert(0x1_0000_0000_0000_0000 * 0x1_0000_0000_0000_0000 > n as int) by (nonlinear_arith);
    while hi - lo > 1
        invariant
            lo < hi,
            hi <= 0x1_0000_0000_0000_0000,
            lo * lo <= n,
            n < hi * hi,
        decreases hi - lo,
    {
        let mid: u128 = lo + (hi - lo) / 2;
        assert(mid * mid <= 0xffff_ffff_ffff_ffff * 0xffff_ffff_ffff_ffff) by (nonlinear_arith)
            requires
                0 <= mid <= 0xffff_ffff_ffff_ffff,
        ;
        assert(0xffff_ffff_ffff_ffff * 0xffff_ffff_ffff_ffff < 0x1_0000_0000_0000_0000_0000_0000_0000_0000)
            by (nonlinear_arith);
        if mid * mid <= n {
            lo = mid;
        } else {
            hi = mid;
        }
    }
    proof {
        assert(hi == lo + 1);
        assert(is_floor_sqrt(n as int, lo as int));
        lemma_floor_sqrt_unique(n as int, floor_sqrt(n as int), lo as int);
    }
    lo as u64
}

/// Every natural number has a rounded-down square root.
pub proof fn lemma_floor_sqrt_exists(n: int)
    requires
        n >= 0,
    ensures
        is_floor_sqrt(n, floor_sqrt(n)),
    decreases n,
{
    if n == 0 {
        assert(is_floor_sqrt(0, 0));
    } else {
        lemma_floor_sqrt_exists(n - 1);
        let r = floor_sqrt(n - 1);
        if (r + 1) * (r + 1) <= n {
            assert((r + 1) * (r + 1) < (r + 2) * (r + 2)) by (nonlinear_arith)
                requires
                    0 <= r,
            ;
            assert(is_floor_sqrt(n, r + 1));
        } else {
            assert(is_floor_sqrt(n, r));
        }
    }
}

/// A difference of two coordinates: what the steering functions accept as a
/// component of the vector to follow.
pub open spec fn is_delta(d: int) -> bool {
    -0x1_0000_0000 < d < 0x1_0000_0000
}

/// Two truncated quotients by one divisor keep the proportion of their
/// numerators: the cross product of `(p, q)` with `(a, b)` is no larger
/// than the larger of `a` and `b`.
pub proof fn lemma_quotients_parallel(a: int, b: int, k: int, den: int)
    requires
        a >= 0,
        b >= 0,
        k >= 0,
        den > 0,
    ensures
        -b <= ((a * k) / den) * b - ((b * k) / den) * a <= a,
{
    let p = (a * k) / den;
    let q = (b * k) / den;
    let x = p * den;
    let y = q * den;
    assert(x <= a * k && a * k - den < x) by (nonlinear_arith)
        requires
            x == ((a * k) / den) * den,
            den > 0,
    ;
    assert(y <= b * k && b * k - den < y) by (nonlinear_arith)
        requires
            y == ((b * k) / den) * den,
            den > 0,
    ;
    assert(b * x <= b * (a * k) && b * x >= b * (a * k) - b * den) by (nonlinear_arith)
        requires
            b >= 0,
            x <= a * k,
            a * k - den <= x,
    ;
    assert(a * y <= a * (b * k) && a * y >= a * (b * k) - a * den) by (nonlinear_arith)
        requires
            a >= 0,
            y <= b * k,
            b * k - den <= y,
    ;
    assert(b * (a * k) == a * (b * k)) by (nonlinear_arith);
    assert(den * (p * b - q * a) == b * x - a * y) by (nonlinear_arith)
        requires
            x == p * den,
            y == q * den,
    ;
    assert(p * b - q * a <= a && p * b - q * a >= -b) by (nonlinear_arith)
        requires
            den > 0,
            den * (p * b - q * a) <= a * den,
            den * (p * b - q * a) >= -(b * den),
    ;
}

/// A velocity made by `scaled_direction_spec` points along the vector it
/// was made from: no component points the other way, the cross product with
/// that vector is no larger than the vector's larger component, and no
/// component exceeds the speed.
pub proof fn lemma_scaled_direction_aligned(dx: int, dy: int, speed: int, scale: int)
    requires
        dx != 0 || dy != 0,
        speed >= 0,
        scale >= 1,
    ensures
        ({
            let v = scaled_direction_spec(dx, dy, speed, scale);
            &&& (dx >= 0 ==> v.0 >= 0) && (dx <= 0 ==> v.0 <= 0)
            &&& (dy >= 0 ==> v.1 >= 0) && (dy <= 0 ==> v.1 <= 0)
            &&& abs(v.0 * dy - v.1 * dx) <= max(abs(dx), abs(dy))
            &&& abs(v.0) <= speed
            &&& abs(v.1) <= speed
        }),
{
    let a = abs(dx);
    let b = abs(dy);
    let len = fine_length(dx, dy);
    let k = speed * PRECISION;
    let den = len * scale;
    lemma_fine_length_covers(dx, dy);
    assert(den >= len) by (nonlinear_arith)
        requires
            den == len * scale,
            len >= 1,
            scale >= 1,
    ;
    let p = (a * k) / den;
    let q = (b * k) / den;
    assert(a * speed * PRECISION == a * k) by (nonlinear_arith)
        requires
            k == speed * PRECISION,
    ;
    assert(b * speed * PRECISION == b * k) by (nonlinear_arith)
        requires
            k == speed * PRECISION,
    ;
    let v = scaled_direction_spec(dx, dy, speed, scale);
    assert(v.0 == if dx >= 0 { p } else { -p });
    assert(v.1 == if dy >= 0 { q } else { -q });
    lemma_quotients_parallel(a, b, k, den);
    assert((a == 0 ==> p == 0) && (b == 0 ==> q == 0)) by (nonlinear_arith)
        requires
            p == (a * k) / den,
            q == (b * k) / den,
            den > 0,
    ;
    assert(0 <= p <= speed) by (nonlinear_arith)
        requires
            p == (a * k) / den,
            k == speed * PRECISION,
            a * PRECISION <= len,
            den >= len,
            len >= 1,
            a >= 0,
            speed >= 0,
    {
        assert(a * k == (a * PRECISION) * speed);
        assert((a * PRECISION) * speed <= den * speed);
    }
    assert(0 <= q <= speed) by (nonlinear_arith)
        requires
            q == (b * k) / den,
            k == speed * PRECISION,
            b * PRECISION <= len,
            den >= len,
            len >= 1,
            b >= 0,
            speed >= 0,
    {
        assert(b * k == (b * PRECISION) * speed);
        assert((b * PRECISION) * speed <= den * speed);
    }
    assert(abs(v.0 * dy - v.1 * dx) == abs(p * b - q * a)) by (nonlinear_arith)
        requires
            v.0 == (if dx >= 0 { p } else { -p }),
            v.1 == (if dy >= 0 { q } else { -q }),
            a == abs(dx),
            b == abs(dy),
    ;
}

/// A velocity made by `scaled_direction_spec` is no faster than the speed
/// it was made for.
pub proof fn lemma_scaled_direction_within_speed(dx: int, dy: int, speed: int, scale: int)
    requires
        dx != 0 || dy != 0,
        speed >= 0,
        scale >= 1,
    ensures
        ({
            let v = scaled_direction_spec(dx, dy, speed, scale);
            v.0 * v.0 + v.1 * v.1 <= speed * speed
        }),
{
    let a = abs(dx);
    let b = abs(dy);
    let len = fine_length(dx, dy);
    let unit = PRECISION as int;
    let k = speed * unit;
    let den = len * scale;
    let n = (dx * dx + dy * dy) * (unit * unit);
    lemma_fine_length_covers(dx, dy);
    let p = (a * k) / den;
    let q = (b * k) / den;
    assert(a * speed * PRECISION == a * k && b * speed * PRECISION == b * k) by (nonlinear_arith)
        requires
            k == speed * PRECISION,
    ;
    let v = scaled_direction_spec(dx, dy, speed, scale);
    assert(v.0 == if dx >= 0 { p } else { -p });
    assert(v.1 == if dy >= 0 { q } else { -q });
    assert(v.0 * v.0 == p * p && v.1 * v.1 == q * q) by (nonlinear_arith)
        requires
            v.0 == p || v.0 == -p,
            v.1 == q || v.1 == -q,
    ;
    assert(0 <= p * len <= a * k) by (nonlinear_arith)
        requires
            p == (a * k) / den,
            den == len * scale,
            len >= 1,
            scale >= 1,
            a >= 0,
            k >= 0,
    {
        assert(den >= 1);
        assert(p >= 0 && p * den <= a * k);
        assert(p * len <= p * len * scale);
    }
    assert(0 <= q * len <= b * k) by (nonlinear_arith)
        requires
            q == (b * k) / den,
            den == len * scale,
            len >= 1,
            scale >= 1,
            b >= 0,
            k >= 0,
    {
        assert(den >= 1);
        assert(q >= 0 && q * den <= b * k);
        assert(q * len <= q * len * scale);
    }
    assert((p * len) * (p * len) <= (a * k) * (a * k)) by (nonlinear_arith)
        requires
            0 <= p * len <= a * k,
    ;
    assert((q * len) * (q * len) <= (b * k) * (b * k)) by (nonlinear_arith)
        requires
            0 <= q * len <= b * k,
    ;
    assert(a * a == dx * dx && b * b == dy * dy) by (nonlinear_arith)
        requires
            a == abs(dx),
            b == abs(dy),
    ;
    let kk = k * k;
    let uu = unit * unit;
    let ss = speed * speed;
    let dd = dx * dx + dy * dy;
    assert((a * k) * (a * k) == (a * a) * kk && (b * k) * (b * k) == (b * b) * kk)
        by (nonlinear_arith)
        requires
            kk == k * k,
    ;
    assert(kk == ss * uu) by (nonlinear_arith)
        requires
            kk == k * k,
            k == speed * unit,
            uu == unit * unit,
            ss == speed * speed,
    ;
    assert((a * a) * kk + (b * b) * kk == dd * kk) by (nonlinear_arith)
        requires
            dd == a * a + b * b,
    ;
    assert(dd * (ss * uu) == ss * (dd * uu)) by (nonlinear_arith);
    assert((a * k) * (a * k) + (b * k) * (b * k) == ss * n);
    let square = len * len;
    assert(square >= 1) by (nonlinear_arith)
        requires
            square == len * len,
            len >= 1,
    ;
    assert(square * (p * p + q * q) == (p * len) * (p * len) + (q * len) * (q * len))
        by (nonlinear_arith)
        requires
            square == len * len,
    ;
    assert((speed * speed) * n <= (speed * speed) * square) by (nonlinear_arith)
        requires
            n <= square,
    ;
    assert(p * p + q * q <= speed * speed) by (nonlinear_arith)
        requires
            square * (p * p + q * q) <= (speed * speed) * square,
            square >= 1,
    ;
}

/// The length of a non-zero vector, in units of `1 / PRECISION`, is
/// positive and covers each of the vector's components.
pub proof fn lemma_fine_length_covers(dx: int, dy: int)
    requires
        dx != 0 || dy != 0,
    ensures
        fine_length(dx, dy) >= 1,
        abs(dx) * PRECISION <= fine_length(dx, dy),
        abs(dy) * PRECISION <= fine_length(dx, dy),
        (dx * dx + dy * dy) * (PRECISION * PRECISION) <= fine_length(dx, dy) * fine_length(dx, dy),
{
    let a = abs(dx);
    let b = abs(dy);
    let n = (dx * dx + dy * dy) * (PRECISION * PRECISION);
    let len = fine_length(dx, dy);
    assert(n > 0 && n >= (a * PRECISION) * (a * PRECISION) && n >= (b * PRECISION) * (b * PRECISION))
        by (nonlinear_arith)
        requires
            n == (dx * dx + dy * dy) * (PRECISION * PRECISION),
            a == abs(dx),
            b == abs(dy),
            dx != 0 || dy != 0,
    ;
    lemma_floor_sqrt_exists(n);
    lemma_ceil_sqrt_bounds(n, floor_sqrt(n));
    assert(a * PRECISION <= len) by (nonlinear_arith)
        requires
            len * len >= (a * PRECISION) * (a * PRECISION),
            len >= 1,
            a >= 0,
    ;
    assert(b * PRECISION <= len) by (nonlinear_arith)
        requires
            len * len >= (b * PRECISION) * (b * PRECISION),
            len >= 1,
            b >= 0,
    ;
}

/// Computes the velocity of the given speed along `(dx, dy)`: each
/// component of the vector times `speed`, divided by the vector's length
/// times `scale`.
pub fn scaled_direction(dx: i64, dy: i64, speed: u32, scale: u32) -> (v: Vec2)
    requires
        is_delta(dx as int),
        is_delta(dy as int),
        dx != 0 || dy != 0,
        speed <= i32::MAX,
        scale >= 1,
    ensures
        (v.x as int, v.y as int) == scaled_direction_spec(
            dx as int,
            dy as int,
            speed as int,
            scale as int,
        ),
        abs(v.x as int) <= speed,
        abs(v.y as int) <= speed,
{
    let ax: u128 = if dx >= 0 {
        dx as u128
    } else {
        (-dx) as u128
    };
    let ay: u128 = if dy >= 0 {
        dy as u128
    } else {
        (-dy) as u128
    };
    let unit: u128 = PRECISION as u128;
    proof {
        assert(ax * ax <= 0xffff_ffff * 0xffff_ffff && ax * ax == dx * dx) by (nonlinear_arith)
            requires
                ax == abs(dx as int),
                ax <= 0xffff_ffff,
        ;
        assert(ay * ay <= 0xffff_ffff * 0xffff_ffff && ay * ay == dy * dy) by (nonlinear_arith)
            requires
                ay == abs(dy as int),
                ay <= 0xffff_ffff,
        ;
    }
    let square: u128 = ax * ax + ay * ay;
    assert(square * (unit * unit) <= 0x2_0000_0000_0000_0000 * 0x1_0000_0000) by (nonlinear_arith)
        requires
            square <= 0x2_0000_0000_0000_0000,
            unit == 65536,
    ;
    let len: u128 = isqrt_ceil(square * (unit * unit));
    proof {
        lemma_fine_length_covers(dx as int, dy as int);
        lemma_scaled_direction_aligned(dx as int, dy as int, speed as int, scale as int);
        assert(len == fine_length(dx as int, dy as int));
        assert(1 <= len * scale <= 0x1_0000_0000_0000_0000 * 0xffff_ffff) by (nonlinear_arith)
            requires
                1 <= len <= 0x1_0000_0000_0000_0000,
                1 <= scale <= 0xffff_ffff,
        ;
        assert(ax * speed <= 0xffff_ffff * 0x7fff_ffff && ay * speed <= 0xffff_ffff * 0x7fff_ffff)
            by (nonlinear_arith)
            requires
                ax <= 0xffff_ffff,
                ay <= 0xffff_ffff,
                speed <= 0x7fff_ffff,
        ;
        assert(ax * speed * unit <= 0xffff_ffff * 0x7fff_ffff * 65536 && ay * speed * unit
            <= 0xffff_ffff * 0x7fff_ffff * 65536) by (nonlinear_arith)
            requires
                ax * speed <= 0xffff_ffff * 0x7fff_ffff,
                ay * speed <= 0xffff_ffff * 0x7fff_ffff,
                unit == 65536,
        ;
    }
    let den: u128 = len * (scale as u128);
    let qx: u128 = ax * (speed as u128) * unit / den;
    let qy: u128 = ay * (speed as u128) * unit / den;
    let x: i32 = if dx >= 0 {
        qx as i32
    } else {
        -(qx as i32)
    };
    let y: i32 = if dy >= 0 {
        qy as i32
    } else {
        -(qy as i32)
    };
    Vec2 { x, y }
}

/// Computes the integer square root of `n`, rounded up.
pub fn isqrt_ceil(n: u128) -> (r: u128)
    ensures
        r as int == ceil_sqrt(n as int),
        r <= 0x1_0000_0000_0000_0000,
{
    let root: u64 = isqrt(n);
    let low: u128 = root as u128;
    proof {
        lemma_ceil_sqrt_bounds(n as int, root as int);
        assert(low * low <= 0xffff_ffff_ffff_ffff * 0xffff_ffff_ffff_ffff) by (nonlinear_arith)
            requires
                0 <= low <= 0xffff_ffff_ffff_ffff,
        ;
        assert(0xffff_ffff_ffff_ffff * 0xffff_ffff_ffff_ffff < 0x1_0000_0000_0000_0000_0000_0000_0000_0000)
            by (nonlinear_arith);
    }
    if low * low == n {
        low
    } else {
        low + 1
    }
}

} // verus!
