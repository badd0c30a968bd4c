//! Exact fixed-point arithmetic for the scene model.
//!
//! Lengths are stored in milliunits and angles in millidegrees, so one
//! whole unit or degree is `MILLI`. Every operation here is an integer
//! function with a closed-form specification; trigonometry uses Bhaskara's
//! rational approximation of the sine, which is exact at every multiple of
//! 90 degrees and within a few parts per thousand elsewhere.

use vstd::prelude::*;

use vstd::arithmetic::div_mod::{
    lemma_div_by_multiple, lemma_div_is_ordered, lemma_div_pos_is_pos,
    lemma_fundamental_div_mod_converse,
};

verus! {

/// One unit (or one degree), in thousandths.
pub const MILLI: i64 = 1000;

/// Half a turn, in millidegrees.
pub const HALF_TURN: i64 = 180_000;

/// A full turn, in millidegrees.
pub const FULL_TURN: i64 = 360_000;

/// Clamping to a closed interval, as used for the pitch limit and for
/// keeping camera coordinates inside the world's coordinate range.
pub open spec fn spec_clamp(v: int, lo: int, hi: int) -> int {
    if v < lo {
        lo
    } else if v > hi {
        hi
    } else {
        v
    }
}

/// Clamp `v` to the closed interval `[lo, hi]`.
pub fn clamp_i64(v: i64, lo: i64, hi: i64) -> (r: i64)
    requires
        lo <= hi,
    ensures
        r == spec_clamp(v as int, lo as int, hi as int),
        lo <= r <= hi,
{
    if v < lo {
        lo
    } else if v > hi {
        hi
    } else {
        v
    }
}

/// Floor division by a positive divisor. This matches the mathematical
/// `/` of specifications (Euclidean division), which Rust's truncating
/// `/` does not on negative dividends.
pub fn div_floor(a: i64, d: i64) -> (q: i64)
    requires
        0 < d,
        i64::MIN < a,
    ensures
        q == a as int / d as int,
{
    if a >= 0 {
        let n: u64 = a as u64;
        let du: u64 = d as u64;
        let q0: u64 = n / du;
        proof {
            vstd::arithmetic::div_mod::lemma_div_nonincreasing(n as int, du as int);
        }
        q0 as i64
    } else {
        let n: u64 = (-a) as u64;
        let du: u64 = d as u64;
        let q0: u64 = n / du;
        let r0: u64 = n % du;
        proof {
            vstd::arithmetic::div_mod::lemma_div_nonincreasing(n as int, du as int);
            vstd::arithmetic::div_mod::lemma_fundamental_div_mod(n as int, du as int);
            assert(n as int == du as int * q0 as int + r0 as int);
            assert(n as int == -(a as int));
        }
        if r0 == 0 {
            proof {
                assert(a as int == (-(q0 as int)) * (d as int) + 0) by (nonlinear_arith)
                    requires
                        n as int == du as int * q0 as int + r0 as int,
                        r0 == 0,
                        n as int == -(a as int),
                        du as int == d as int,
                ;
                lemma_fundamental_div_mod_converse(a as int, d as int, -(q0 as int), 0);
            }
            -(q0 as i64)
        } else {
            proof {
                assert(a as int == (-(q0 as int) - 1) * (d as int) + (d as int - r0 as int))
                    by (nonlinear_arith)
                    requires
                        n as int == du as int * q0 as int + r0 as int,
                        n as int == -(a as int),
                        du as int == d as int,
                ;
                lemma_fundamental_div_mod_converse(
                    a as int,
                    d as int,
                    -(q0 as int) - 1,
                    d as int - r0 as int,
                );
            }
            -(q0 as i64) - 1
        }
    }
}

/// Remainder of floor division by a positive divisor: always in `[0, d)`,
/// matching the mathematical `%` of specifications.
pub fn mod_floor(a: i64, d: i64) -> (r: i64)
    requires
        0 < d,
        i64::MIN < a,
    ensures
        r == a as int % d as int,
        0 <= r < d,
{
    if a >= 0 {
        let n: u64 = a as u64;
        let du: u64 = d as u64;
        let r0: u64 = n % du;
        r0 as i64
    } else {
        let n: u64 = (-a) as u64;
        let du: u64 = d as u64;
        let q0: u64 = n / du;
        let r0: u64 = n % du;
        proof {
            vstd::arithmetic::div_mod::lemma_div_nonincreasing(n as int, du as int);
            vstd::arithmetic::div_mod::lemma_fundamental_div_mod(n as int, du as int);
            assert(n as int == du as int * q0 as int + r0 as int);
            assert(n as int == -(a as int));
        }
        if r0 == 0 {
            proof {
                assert(a as int == (-(q0 as int)) * (d as int) + 0) by (nonlinear_arith)
                    requires
                        n as int == du as int * q0 as int + r0 as int,
                        r0 == 0,
                        n as int == -(a as int),
                        du as int == d as int,
                ;
                lemma_fundamental_div_mod_converse(a as int, d as int, -(q0 as int), 0);
            }
            0
        } else {
            proof {
                assert(a as int == (-(q0 as int) - 1) * (d as int) + (d as int - r0 as int))
                    by (nonlinear_arith)
                    requires
                        n as int == du as int * q0 as int + r0 as int,
                        n as int == -(a as int),
                        du as int == d as int,
                ;
                lemma_fundamental_div_mod_converse(
                    a as int,
                    d as int,
                    -(q0 as int) - 1,
                    d as int - r0 as int,
                );
            }
            d - (r0 as i64)
        }
    }
}

/// Bhaskara's sine approximation on `[0, 180]` degrees, scaled to
/// thousandths: the result is `0` at `0` and `180` degrees and exactly
/// `1000` at `90` degrees.
pub open spec fn spec_half_sin(x: int) -> int {
    (16_000 * x * (180_000 - x)) / (162_000_000_000 - 4 * x * (180_000 - x))
}

/// Sine of an angle in millidegrees, scaled to thousandths, defined for
/// every integer angle by reduction modulo a full turn.
#[verifier::opaque]
pub open spec fn spec_sin_milli(a: int) -> int {
    let n = a % (FULL_TURN as int);
    if n <= HALF_TURN as int {
        spec_half_sin(n)
    } else {
        -spec_half_sin(n - HALF_TURN as int)
    }
}

/// Cosine of an angle in millidegrees, scaled to thousandths.
pub open spec fn spec_cos_milli(a: int) -> int {
    spec_sin_milli(a + 90_000)
}

fn half_sin(x: i64) -> (r: i64)
    requires
        0 <= x <= HALF_TURN,
    ensures
        r == spec_half_sin(x as int),
        0 <= r <= MILLI,
{
    proof {
        assert(0 <= x * (180_000 - x) <= 8_100_000_000) by (nonlinear_arith)
            requires
                0 <= x <= 180_000,
        ;
    }
    let p: i64 = x * (HALF_TURN - x);
    let num: i64 = 16_000 * p;
    let den: i64 = 162_000_000_000 - 4 * p;
    proof {
        assert(num as int == 16_000 * (x as int) * (180_000 - x as int)) by (nonlinear_arith)
            requires
                p as int == (x as int) * (180_000 - x as int),
                num as int == 16_000 * (p as int),
        ;
        assert(den as int == 162_000_000_000 - 4 * (x as int) * (180_000 - x as int))
            by (nonlinear_arith)
            requires
                p as int == (x as int) * (180_000 - x as int),
                den as int == 162_000_000_000 - 4 * (p as int),
        ;
        lemma_div_pos_is_pos(num as int, den as int);
        assert(num <= 1000 * (den as int));
        lemma_div_is_ordered(num as int, 1000 * (den as int), den as int);
        lemma_div_by_multiple(1000, den as int);
    }
    num / den
}

/// Sine of an angle in millidegrees, scaled to thousandths.
pub fn sin_milli(a: i64) -> (r: i64)
    requires
        i64::MIN < a,
    ensures
        r == spec_sin_milli(a as int),
        -MILLI <= r <= MILLI,
{
    proof {
        reveal(spec_sin_milli);
    }
    let n: i64 = mod_floor(a, FULL_TURN);
    if n <= HALF_TURN {
        half_sin(n)
    } else {
        -half_sin(n - HALF_TURN)
    }
}

/// Cosine of an angle in millidegrees, scaled to thousandths.
pub fn cos_milli(a: i64) -> (r: i64)
    requires
        -1_000_000_000_000 <= a <= 1_000_000_000_000,
    ensures
        r == spec_cos_milli(a as int),
        -MILLI <= r <= MILLI,
{
    sin_milli(a + 90_000)
}

/// The integer square root, rounded down: the largest `r` with `r * r <= n`.
pub open spec fn sqrt_floor(n: nat) -> nat
    decreases n,
{
    if n == 0 {
        0
    } else {
        let r = sqrt_floor((n - 1) as nat);
        if (r + 1) * (r + 1) <= n {
            r + 1
        } else {
            r
        }
    }
}

pub proof fn lemma_sqrt_floor_bounds(n: nat)
    ensures
        sqrt_floor(n) * sqrt_floor(n) <= n,
        n < (sqrt_floor(n) + 1) * (sqrt_floor(n) + 1),
    decreases n,
{
    if n > 0 {
        lemma_sqrt_floor_bounds((n - 1) as nat);
        let r = sqrt_floor((n - 1) as nat);
        assert(r * r <= n - 1);
        assert(n - 1 < (r + 1) * (r + 1));
        if (r + 1) * (r + 1) <= n {
            assert(sqrt_floor(n) == r + 1);
            assert(n == (r + 1) * (r + 1));
            assert((r + 1) * (r + 1) < (r + 2) * (r + 2)) by (nonlinear_arith);
            assert(n < (sqrt_floor(n) + 1) * (sqrt_floor(n) + 1)) by (nonlinear_arith)
                requires
                    sqrt_floor(n) == r + 1,
                    n < (r + 2) * (r + 2),
            ;
        } else {
            assert(sqrt_floor(n) == r);
            assert(n < (sqrt_floor(n) + 1) * (sqrt_floor(n) + 1));
        }
    } else {
        assert(n == 0);
        assert(sqrt_floor(n) == 0);
        assert(n < (sqrt_floor(n) + 1) * (sqrt_floor(n) + 1)) by (nonlinear_arith)
            requires
                n == 0,
                sqrt_floor(n) == 0,
        ;
    }
}

pub proof fn lemma_sqrt_floor_unique(n: nat, r: nat)
    requires
        r * r <= n,
        n < (r + 1) * (r + 1),
    ensures
        r == sqrt_floor(n),
{
    lemma_sqrt_floor_bounds(n);
    let s = sqrt_floor(n);
    if r < s {
        assert((r + 1) * (r + 1) <= s * s) by (nonlinear_arith)
            requires
                r + 1 <= s,
        ;
    }
    if s < r {
        assert((s + 1) * (s + 1) <= r * r) by (nonlinear_arith)
            requires
                s + 1 <= r,
        ;
    }
}

/// The square root is monotone.
pub proof fn lemma_sqrt_floor_monotone(m: nat, n: nat)
    requires
        m <= n,
    ensures
        sqrt_floor(m) <= sqrt_floor(n),
{
    lemma_sqrt_floor_bounds(m);
    lemma_sqrt_floor_bounds(n);
    let a = sqrt_floor(m);
    let b = sqrt_floor(n);
    if b < a {
        assert((b + 1) * (b + 1) <= a * a) by (nonlinear_arith)
            requires
                b + 1 <= a,
        ;
    }
}

/// Integer square root, rounded down.
pub fn isqrt_u64(n: u64) -> (r: u64)
    ensures
        r == sqrt_floor(n as nat),
        r <= 0xFFFF_FFFF,
{
    let mut lo: u64 = 0;
    let mut hi: u64 = 0xFFFF_FFFF;
    proof {
        assert((0xFFFF_FFFF + 1) * (0xFFFF_FFFF + 1) == 0x1_0000_0000_0000_0000) by (nonlinear_arith);
    }
    while lo < hi
        invariant
            lo <= hi <= 0xFFFF_FFFF,
            lo * lo <= n,
            n < (hi + 1) * (hi + 1),
        decreases hi - lo,
    {
        let mid: u64 = lo + (hi - lo + 1) / 2;
        proof {
            assert(lo < mid <= hi);
            assert(mid * mid < 0x1_0000_0000_0000_0000) by (nonlinear_arith)
                requires
                    mid <= 0xFFFF_FFFF,
            ;
        }
        if mid * mid <= n {
            lo = mid;
        } else {
            hi = mid - 1;
        }
    }
    proof {
        lemma_sqrt_floor_unique(n as nat, lo as nat);
    }
    lo
}

/// A three-component vector of fixed-point coordinates (milliunits).
#[derive(Clone, Copy, PartialEq, Eq, Structural, Debug)]
pub struct Vec3 {
    pub x: i64,
    pub y: i64,
    pub z: i64,
}

impl Vec3 {
    /// Every component lies in `[-b, b]`.
    pub open spec fn abs_within(self, b: int) -> bool {
        &&& -b <= self.x <= b
        &&& -b <= self.y <= b
        &&& -b <= self.z <= b
    }

    /// The zero vector.
    pub fn origin() -> (r: Vec3)
        ensures
            r == (Vec3 { x: 0, y: 0, z: 0 }),
    {
        Vec3 { x: 0, y: 0, z: 0 }
    }

    /// Componentwise sum.
    pub fn plus(self, o: Vec3) -> (r: Vec3)
        requires
            self.abs_within(0x2000_0000_0000_0000),
            o.abs_within(0x2000_0000_0000_0000),
        ensures
            r == (Vec3 { x: (self.x + o.x) as i64, y: (self.y + o.y) as i64, z: (self.z + o.z) as i64 }),
    {
        Vec3 { x: self.x + o.x, y: self.y + o.y, z: self.z + o.z }
    }

    /// Componentwise difference.
    pub fn minus(self, o: Vec3) -> (r: Vec3)
        requires
            self.abs_within(0x2000_0000_0000_0000),
            o.abs_within(0x2000_0000_0000_0000),
        ensures
            r == (Vec3 { x: (self.x - o.x) as i64, y: (self.y - o.y) as i64, z: (self.z - o.z) as i64 }),
    {
        Vec3 { x: self.x - o.x, y: self.y - o.y, z: self.z - o.z }
    }

    /// Componentwise negation.
    pub fn negated(self) -> (r: Vec3)
        requires
            self.abs_within(0x2000_0000_0000_0000),
        ensures
            r == (Vec3 { x: (-self.x) as i64, y: (-self.y) as i64, z: (-self.z) as i64 }),
    {
        Vec3 { x: -self.x, y: -self.y, z: -self.z }
    }
}

/// The squared length of `v`, exact (not in milli).
pub open spec fn spec_norm_sq(v: Vec3) -> int {
    v.x * v.x + v.y * v.y + v.z * v.z
}

/// The length of `v` in milliunits, rounded down.
pub open spec fn spec_norm_milli(v: Vec3) -> int {
    sqrt_floor(spec_norm_sq(v) as nat) as int
}

/// `v` rescaled to (milli) unit length, rounded down componentwise;
/// the zero vector is returned unchanged.
#[verifier::opaque]
pub open spec fn spec_normalized(v: Vec3) -> Vec3 {
    let n = spec_norm_milli(v);
    if n == 0 {
        v
    } else {
        Vec3 {
            x: (v.x * 1000 / n) as i64,
            y: (v.y * 1000 / n) as i64,
            z: (v.z * 1000 / n) as i64,
        }
    }
}

/// The dot product of two milli-scaled vectors, in milli.
pub open spec fn spec_dot_milli(a: Vec3, b: Vec3) -> int {
    (a.x * b.x + a.y * b.y + a.z * b.z) / 1000
}

/// The cross product of two milli-scaled vectors, in milli.
pub open spec fn spec_cross_milli(a: Vec3, b: Vec3) -> Vec3 {
    Vec3 {
        x: ((a.y * b.z - a.z * b.y) / 1000) as i64,
        y: ((a.z * b.x - a.x * b.z) / 1000) as i64,
        z: ((a.x * b.y - a.y * b.x) / 1000) as i64,
    }
}

/// Division by a positive divisor maps `[-m, m]` into `[-m/d - 1, m/d]`.
pub proof fn lemma_div_range(x: int, m: int, d: int)
    requires
        0 <= m,
        0 < d,
        -m <= x <= m,
    ensures
        -(m / d) - 1 <= x / d <= m / d,
{
    lemma_div_is_ordered(x, m, d);
    lemma_div_is_ordered(-m, x, d);
    assert((-m) / d >= -(m / d) - 1) by {
        vstd::arithmetic::div_mod::lemma_fundamental_div_mod(m, d);
        let q = m / d;
        let r = m % d;
        if r == 0 {
            assert(-m == (-q) * d + 0) by (nonlinear_arith)
                requires
                    m == d * q + r,
                    r == 0,
            ;
            lemma_fundamental_div_mod_converse(-m, d, -q, 0);
        } else {
            assert(-m == (-q - 1) * d + (d - r)) by (nonlinear_arith)
                requires
                    m == d * q + r,
            ;
            lemma_fundamental_div_mod_converse(-m, d, -q - 1, d - r);
        }
    }
}

/// Bound on the dot product from componentwise bounds.
pub proof fn lemma_dot_bound(a: Vec3, b: Vec3, ab: int, bb: int)
    requires
        0 <= ab,
        0 <= bb,
        a.abs_within(ab),
        b.abs_within(bb),
    ensures
        -(3 * ab * bb / 1000) - 1 <= spec_dot_milli(a, b) <= 3 * ab * bb / 1000,
{
    assert(-(3 * ab * bb) <= a.x * b.x + a.y * b.y + a.z * b.z <= 3 * ab * bb)
        by (nonlinear_arith)
        requires
            0 <= ab,
            0 <= bb,
            -ab <= a.x <= ab,
            -ab <= a.y <= ab,
            -ab <= a.z <= ab,
            -bb <= b.x <= bb,
            -bb <= b.y <= bb,
            -bb <= b.z <= bb,
    ;
    lemma_div_range(a.x * b.x + a.y * b.y + a.z * b.z, 3 * ab * bb, 1000);
}

/// Bound on the cross product from componentwise bounds.
pub proof fn lemma_cross_bound(a: Vec3, b: Vec3, ab: int, bb: int)
    requires
        0 <= ab,
        0 <= bb,
        a.abs_within(ab),
        b.abs_within(bb),
    ensures
        spec_cross_milli(a, b).abs_within(2 * ab * bb / 1000 + 1),
{
    assert(-(2 * ab * bb) <= a.y * b.z - a.z * b.y <= 2 * ab * bb
        && -(2 * ab * bb) <= a.z * b.x - a.x * b.z <= 2 * ab * bb
        && -(2 * ab * bb) <= a.x * b.y - a.y * b.x <= 2 * ab * bb)
        by (nonlinear_arith)
        requires
            0 <= ab,
            0 <= bb,
            -ab <= a.x <= ab,
            -ab <= a.y <= ab,
            -ab <= a.z <= ab,
            -bb <= b.x <= bb,
            -bb <= b.y <= bb,
            -bb <= b.z <= bb,
    ;
    lemma_div_range(a.y * b.z - a.z * b.y, 2 * ab * bb, 1000);
    lemma_div_range(a.z * b.x - a.x * b.z, 2 * ab * bb, 1000);
    lemma_div_range(a.x * b.y - a.y * b.x, 2 * ab * bb, 1000);
}

/// The dot product of two milli-scaled vectors, in milli.
pub fn dot_milli(a: Vec3, b: Vec3) -> (r: i64)
    requires
        a.abs_within(2_000_000),
        b.abs_within(1_100_000_000),
    ensures
        r == spec_dot_milli(a, b),
{
    proof {
        assert(-2_200_000_000_000_000 <= a.x * b.x <= 2_200_000_000_000_000
            && -2_200_000_000_000_000 <= a.y * b.y <= 2_200_000_000_000_000
            && -2_200_000_000_000_000 <= a.z * b.z <= 2_200_000_000_000_000)
            by (nonlinear_arith)
            requires
                a.abs_within(2_000_000),
                b.abs_within(1_100_000_000),
        ;
    }
    let s: i64 = a.x * b.x + a.y * b.y + a.z * b.z;
    div_floor(s, 1000)
}

/// The cross product of two milli-scaled vectors, in milli.
pub fn cross_milli(a: Vec3, b: Vec3) -> (r: Vec3)
    requires
        a.abs_within(2_000_000),
        b.abs_within(1_100_000_000),
    ensures
        r == spec_cross_milli(a, b),
{
    proof {
        assert(-2_200_000_000_000_000 <= a.x * b.x <= 2_200_000_000_000_000
            && -2_200_000_000_000_000 <= a.x * b.y <= 2_200_000_000_000_000
            && -2_200_000_000_000_000 <= a.x * b.z <= 2_200_000_000_000_000
            && -2_200_000_000_000_000 <= a.y * b.x <= 2_200_000_000_000_000
            && -2_200_000_000_000_000 <= a.y * b.y <= 2_200_000_000_000_000
            && -2_200_000_000_000_000 <= a.y * b.z <= 2_200_000_000_000_000
            && -2_200_000_000_000_000 <= a.z * b.x <= 2_200_000_000_000_000
            && -2_200_000_000_000_000 <= a.z * b.y <= 2_200_000_000_000_000
            && -2_200_000_000_000_000 <= a.z * b.z <= 2_200_000_000_000_000)
            by (nonlinear_arith)
            requires
                a.abs_within(2_000_000),
                b.abs_within(1_100_000_000),
        ;
    }
    let cx: i64 = a.y * b.z - a.z * b.y;
    let cy: i64 = a.z * b.x - a.x * b.z;
    let cz: i64 = a.x * b.y - a.y * b.x;
    Vec3 { x: div_floor(cx, 1000), y: div_floor(cy, 1000), z: div_floor(cz, 1000) }
}

/// Rescale `v` to (milli) unit length; the zero vector stays put.
pub fn normalized(v: Vec3) -> (r: Vec3)
    requires
        v.abs_within(2_100_000_000),
    ensures
        r == spec_normalized(v),
        r.abs_within(1000),
{
    proof {
        reveal(spec_normalized);
        assert(0 <= v.x * v.x <= 4_410_000_000_000_000_000
            && 0 <= v.y * v.y <= 4_410_000_000_000_000_000
            && 0 <= v.z * v.z <= 4_410_000_000_000_000_000) by (nonlinear_arith)
            requires
                v.abs_within(2_100_000_000),
        ;
    }
    let sx: u64 = (v.x * v.x) as u64;
    let sy: u64 = (v.y * v.y) as u64;
    let sz: u64 = (v.z * v.z) as u64;
    let sum: u64 = sx + sy + sz;
    let n: u64 = isqrt_u64(sum);
    if n == 0 {
        proof {
            lemma_sqrt_floor_bounds(sum as nat);
            assert(sqrt_floor(sum as nat) == 0);
            assert(sum == 0) by (nonlinear_arith)
                requires
                    (sum as nat) < (sqrt_floor(sum as nat) + 1) * (sqrt_floor(sum as nat) + 1),
                    sqrt_floor(sum as nat) == 0,
            ;
            assert(v.x * v.x == 0 && v.y * v.y == 0 && v.z * v.z == 0);
            assert(v.x == 0 && v.y == 0 && v.z == 0) by (nonlinear_arith)
                requires
                    v.x * v.x == 0,
                    v.y * v.y == 0,
                    v.z * v.z == 0,
            ;
        }
        v
    } else {
        let ni: i64 = n as i64;
        proof {
            lemma_sqrt_floor_bounds(sum as nat);
            lemma_normalized_component(v.x as int, sum as int, n as int);
            lemma_normalized_component(v.y as int, sum as int, n as int);
            lemma_normalized_component(v.z as int, sum as int, n as int);
        }
        Vec3 {
            x: div_floor(v.x * 1000, ni),
            y: div_floor(v.y * 1000, ni),
            z: div_floor(v.z * 1000, ni),
        }
    }
}

/// Bound on a product from bounds on its factors.
pub proof fn lemma_mul_bound(a: int, b: int, aa: int, bb: int)
    requires
        0 <= aa,
        0 <= bb,
        -aa <= a <= aa,
        -bb <= b <= bb,
    ensures
        -(aa * bb) <= a * b <= aa * bb,
{
    assert(-(aa * bb) <= a * b <= aa * bb) by (nonlinear_arith)
        requires
            0 <= aa,
            0 <= bb,
            -aa <= a <= aa,
            -bb <= b <= bb,
    ;
}

/// A vector in milliunits, written componentwise.
pub open spec fn spec_vec3(x: int, y: int, z: int) -> Vec3 {
    Vec3 { x: x as i64, y: y as i64, z: z as i64 }
}

/// Bhaskara's sine stays within `[0, 1000]` over the half turn.
pub proof fn lemma_half_sin_range(x: int)
    requires
        0 <= x <= 180_000,
    ensures
        0 <= spec_half_sin(x) <= 1000,
{
    let num = 16_000 * x * (180_000 - x);
    let den = 162_000_000_000 - 4 * x * (180_000 - x);
    assert(0 <= num && 0 < den && num <= 1000 * den) by (nonlinear_arith)
        requires
            0 <= x <= 180_000,
            num == 16_000 * x * (180_000 - x),
            den == 162_000_000_000 - 4 * x * (180_000 - x),
    ;
    lemma_div_pos_is_pos(num, den);
    lemma_div_is_ordered(num, 1000 * den, den);
    lemma_div_by_multiple(1000, den);
}

/// Away from the ends of the half turn, Bhaskara's sine is bounded away
/// from zero; this makes the focal-length division of the projection
/// matrix well defined.
pub proof fn lemma_half_sin_lower(x: int)
    requires
        500 <= x <= 179_500,
    ensures
        spec_half_sin(x) >= 4,
{
    let num = 16_000 * x * (180_000 - x);
    let den = 162_000_000_000 - 4 * x * (180_000 - x);
    assert(0 < den && num >= 4 * den) by (nonlinear_arith)
        requires
            500 <= x <= 179_500,
            num == 16_000 * x * (180_000 - x),
            den == 162_000_000_000 - 4 * x * (180_000 - x),
    ;
    lemma_div_is_ordered(4 * den, num, den);
    assert((4 * den) / den == 4) by {
        assert(4 * den == den * 4) by (nonlinear_arith);
        vstd::arithmetic::div_mod::lemma_div_multiples_vanish(4, den);
    }
}

/// An angle already inside `[0, FULL_TURN)` is unchanged by the reduction
/// in `spec_sin_milli`.
pub proof fn lemma_angle_already_reduced(a: int)
    requires
        0 <= a < 360_000,
    ensures
        a % 360_000 == a,
{
    vstd::arithmetic::div_mod::lemma_small_mod(a as nat, 360_000nat);
}

/// A 4-by-4 transform in row-major order with fixed-point entries: `1000`
/// on the diagonal is the identity.
#[derive(Clone, Copy, PartialEq, Eq, Structural, Debug)]
pub struct Mat4 {
    pub m00: i64,
    pub m01: i64,
    pub m02: i64,
    pub m03: i64,
    pub m10: i64,
    pub m11: i64,
    pub m12: i64,
    pub m13: i64,
    pub m20: i64,
    pub m21: i64,
    pub m22: i64,
    pub m23: i64,
    pub m30: i64,
    pub m31: i64,
    pub m32: i64,
    pub m33: i64,
}

/// The identity transform.
pub open spec fn spec_mat4_identity() -> Mat4 {
    Mat4 {
        m00: 1000, m01: 0, m02: 0, m03: 0,
        m10: 0, m11: 1000, m12: 0, m13: 0,
        m20: 0, m21: 0, m22: 1000, m23: 0,
        m30: 0, m31: 0, m32: 0, m33: 1000,
    }
}

impl Mat4 {
    /// The identity transform.
    pub fn identity() -> (r: Mat4)
        ensures
            r == spec_mat4_identity(),
    {
        Mat4 {
            m00: 1000, m01: 0, m02: 0, m03: 0,
            m10: 0, m11: 1000, m12: 0, m13: 0,
            m20: 0, m21: 0, m22: 1000, m23: 0,
            m30: 0, m31: 0, m32: 0, m33: 1000,
        }
    }
}

/// A component of a vector divided by (at least) its length scales into
/// `[-1000, 1000]`.
proof fn lemma_normalized_component(x: int, sum: int, n: int)
    requires
        0 < n,
        x * x <= sum,
        n * n <= sum,
        sum < (n + 1) * (n + 1),
    ensures
        -1000 <= x * 1000 / n <= 1000,
{
    assert(-n <= x <= n) by (nonlinear_arith)
        requires
            0 < n,
            x * x <= sum,
            sum < (n + 1) * (n + 1),
    ;
    assert(-(n * 1000) <= x * 1000 <= n * 1000) by (nonlinear_arith)
        requires
            -n <= x <= n,
            0 < n,
    ;
    lemma_div_is_ordered(x * 1000, n * 1000, n);
    lemma_div_is_ordered(-(n * 1000), x * 1000, n);
    assert((n * 1000) / n == 1000) by {
        vstd::arithmetic::div_mod::lemma_div_multiples_vanish(1000, n);
    }
    assert((-(n * 1000)) / n == -1000) by {
        assert(-(n * 1000) == n * (-1000)) by (nonlinear_arith);
        vstd::arithmetic::div_mod::lemma_div_multiples_vanish(-1000, n);
    }
}

} // verus!
