//! The track model: sides, poses in the track plane, segment variants,
//! exact pose chaining and per-segment signed line distance.
//!
//! All lengths are in nanometres and all angles in microdegrees, so chaining
//! is exact integer arithmetic; sine and cosine are fixed-point with unit
//! `TRIG_SCALE`, built so that `sin^2 + cos^2` never strays more than a few
//! parts per million from one -- that bound is what the chain-closure proof
//! rests on.

use vstd::prelude::*;

verus! {

use vstd::arithmetic::div_mod::lemma_div_pos_is_pos;

/// One of the two sides of the robot or of a turn, with a signed projection
/// used to mirror geometry and torque: `Left` maps to `+1`, `Right` to `-1`.
#[derive(Clone, Copy, Debug, PartialEq, Eq, Structural)]
pub enum Side {
    Left,
    Right,
}

impl Side {
    /// The signed projection of this side.
    pub open spec fn spec_sign(self) -> int {
        match self {
            Side::Left => 1,
            Side::Right => -1,
        }
    }

    /// Returns `+1` for `Left` and `-1` for `Right`.
    pub fn sign(self) -> (s: i64)
        ensures
            s == self.spec_sign(),
    {
        match self {
            Side::Left => 1,
            Side::Right => -1,
        }
    }

    /// The side opposite to this one.
    pub fn opposite(self) -> (o: Side)
        ensures
            o.spec_sign() == -self.spec_sign(),
    {
        match self {
            Side::Left => Side::Right,
            Side::Right => Side::Left,
        }
    }
}

/// The fixed-point unit of sine and cosine values (2^20).
pub const TRIG_SCALE: i64 = 1_048_576;

/// A full turn, in microdegrees.
pub const FULL_TURN_UDEG: i64 = 360_000_000;

/// A quarter turn, in microdegrees.
pub const QUARTER_TURN_UDEG: i64 = 90_000_000;

/// Length of the start and end caps of a track, in nanometres (0.1 m).
pub const TIP_LENGTH_NM: i64 = 100_000_000;

/// Full width of the track band, in nanometres (0.2 m).
pub const TRACK_WIDTH_NM: i64 = 200_000_000;

/// Half width of the track band, in nanometres.
pub const TRACK_HALF_WIDTH_NM: i64 = 100_000_000;

/// Largest length or radius a segment may carry, in nanometres (10 m).
pub const MAX_SEGMENT_NM: i64 = 10_000_000_000;

/// The integer square root: the largest integer whose square is at most `n`.
pub open spec fn spec_isqrt(n: int) -> int
    decreases n,
{
    if n <= 0 {
        0
    } else {
        let r = spec_isqrt(n - 1);
        if (r + 1) * (r + 1) <= n {
            r + 1
        } else {
            r
        }
    }
}

/// The square root squares back to at most its argument, and one more is
/// already too much.
pub proof fn lemma_isqrt_props(n: int)
    requires
        0 <= n,
    ensures
        0 <= spec_isqrt(n),
        spec_isqrt(n) * spec_isqrt(n) <= n,
        n < (spec_isqrt(n) + 1) * (spec_isqrt(n) + 1),
    decreases n,
{
    if n == 0 {
        assert((0 + 1) * (0 + 1) == 1) by (nonlinear_arith);
    } else {
        lemma_isqrt_props(n - 1);
        let rp = spec_isqrt(n - 1);
        if (rp + 1) * (rp + 1) <= n {
            assert(n < ((rp + 1) + 1) * ((rp + 1) + 1)) by (nonlinear_arith)
                requires
                    n - 1 < (rp + 1) * (rp + 1),
                    rp >= 0,
            ;
        }
    }
}

/// The characterization pins the square root down.
proof fn lemma_isqrt_is(n: int, r: int)
    requires
        0 <= r,
        r * r <= n,
        n < (r + 1) * (r + 1),
    ensures
        spec_isqrt(n) == r,
{
    lemma_isqrt_props(n);
    let picked = spec_isqrt(n);
    assert(picked == r) by (nonlinear_arith)
        requires
            0 <= r,
            r * r <= n,
            n < (r + 1) * (r + 1),
            0 <= picked,
            picked * picked <= n,
            n < (picked + 1) * (picked + 1),
    ;
}

/// The largest integer whose square is at most `n`.
pub fn isqrt(n: u128) -> (r: u64)
    requires
        n <= 0xffff_ffff_ffff_ffff_ffff_ffff_ffff_fffeu128,
    ensures
        r as int == spec_isqrt(n as int),
        (r as int) * (r as int) <= n as int,
        (n as int) < (r as int + 1) * (r as int + 1),
{
    let mut lo: u128 = 0;
    let mut hi: u128 = if n >= 0xffff_ffff_ffff_fffeu128 {
        0x1_0000_0000_0000_0000
    } else {
        n + 1
    };
    proof {
        assert((hi as int) * (hi as int) > n as int) by (nonlinear_arith)
            requires
                (n < 0xffff_ffff_ffff_fffeu128 && hi == n + 1) || (hi
                    == 0x1_0000_0000_0000_0000u128 && n
                    <= 0xffff_ffff_ffff_ffff_ffff_ffff_ffff_fffeu128),
        ;
    }
    while hi - lo > 1
        invariant
            lo < hi,
            hi <= 0x1_0000_0000_0000_0000u128,
            (lo as int) * (lo as int) <= n as int,
            (hi as int) * (hi as int) > n as int,
        decreases hi - lo,
    {
        let mid = lo + (hi - lo) / 2;
        proof {
            assert((mid as int) * (mid as int)
                <= 0xffff_ffff_ffff_ffff_ffff_ffff_ffff_ffffu128) by (nonlinear_arith)
                requires
                    mid < 0x1_0000_0000_0000_0000u128,
            ;
        }
        if mid * mid <= n {
            lo = mid;
        } else {
            hi = mid;
        }
    }
    proof {
        lemma_isqrt_is(n as int, lo as int);
        assert(lo < 0x1_0000_0000_0000_0000u128);
    }
    lo as u64
}

/// The base sine on the first quadrant, in fixed point: a rational
/// approximation that is exactly `0` at `0` and exactly `TRIG_SCALE` at a
/// quarter turn, never above `TRIG_SCALE`.
pub open spec fn spec_base_sin(x: int) -> int {
    let hump = x * (180_000_000 - x);
    (TRIG_SCALE * 4 * hump) / (40_500_000_000_000_000 - hump)
}

/// The hump term stays within its quarter-circle bounds.
proof fn lemma_hump_bounds(x: int)
    requires
        0 <= x <= 90_000_000,
    ensures
        0 <= x * (180_000_000 - x) <= 8_100_000_000_000_000,
        x * (180_000_000 - x) == 8_100_000_000_000_000 <==> x == 90_000_000,
{
    assert((90_000_000 - x) * (90_000_000 - x) >= 0 && ((90_000_000 - x) * (90_000_000 - x) == 0
        <==> x == 90_000_000)) by (nonlinear_arith);
    assert(x * (180_000_000 - x) == 8_100_000_000_000_000 - (90_000_000 - x) * (90_000_000 - x))
        by (nonlinear_arith);
    assert(x * (180_000_000 - x) >= 0) by (nonlinear_arith)
        requires
            0 <= x <= 90_000_000,
    ;
}

/// The base sine stays in `[0, TRIG_SCALE]`, with the endpoints exact.
proof fn lemma_base_sin_bounds(x: int)
    requires
        0 <= x <= 90_000_000,
    ensures
        0 <= spec_base_sin(x) <= TRIG_SCALE,
        x == 0 ==> spec_base_sin(x) == 0,
        x == 90_000_000 ==> spec_base_sin(x) == TRIG_SCALE,
{
    lemma_hump_bounds(x);
    let hump = x * (180_000_000 - x);
    let numer = TRIG_SCALE * 4 * hump;
    let denom = 40_500_000_000_000_000 - hump;
    assert(denom >= 32_400_000_000_000_000);
    lemma_div_pos_is_pos(numer, denom);
    assert(numer <= denom * TRIG_SCALE) by (nonlinear_arith)
        requires
            numer == TRIG_SCALE * 4 * hump,
            denom == 40_500_000_000_000_000 - hump,
            0 <= hump <= 8_100_000_000_000_000,
    ;
    vstd::arithmetic::div_mod::lemma_multiply_divide_le(numer, denom, TRIG_SCALE as int);
    if x == 90_000_000 {
        assert(numer == denom * TRIG_SCALE) by (nonlinear_arith)
            requires
                numer == TRIG_SCALE * 4 * hump,
                denom == 40_500_000_000_000_000 - hump,
                hump == 8_100_000_000_000_000,
        ;
        vstd::arithmetic::div_mod::lemma_div_multiples_vanish(TRIG_SCALE as int, denom);
        assert((denom * TRIG_SCALE) / denom == TRIG_SCALE);
    }
}

/// The base cosine on the first quadrant: whatever closes the Pythagorean
/// identity over the base sine, by square root.
pub open spec fn spec_base_cos(x: int) -> int {
    spec_isqrt(TRIG_SCALE * TRIG_SCALE - spec_base_sin(x) * spec_base_sin(x))
}

/// The base sine on the first quadrant.
fn base_sin(x: i64) -> (s: i64)
    requires
        0 <= x <= 90_000_000,
    ensures
        s == spec_base_sin(x as int),
        0 <= s <= TRIG_SCALE,
{
    proof {
        lemma_hump_bounds(x as int);
        lemma_base_sin_bounds(x as int);
    }
    let hump: i64 = x * (180_000_000 - x);
    let numer: u128 = (TRIG_SCALE as u128) * 4 * (hump as u128);
    let denom: u128 = (40_500_000_000_000_000u64 - hump as u64) as u128;
    (numer / denom) as i64
}

/// The base pair `(sin, cos)` on the first quadrant: at most `TRIG_SCALE`
/// each, and together within `2 * TRIG_SCALE + 1` of the exact circle.
fn base_sin_cos(x: i64) -> (sc: (i64, i64))
    requires
        0 <= x <= 90_000_000,
    ensures
        sc.0 == spec_base_sin(x as int),
        sc.1 == spec_base_cos(x as int),
        0 <= sc.0 <= TRIG_SCALE,
        0 <= sc.1 <= TRIG_SCALE,
        x == 0 ==> sc.0 == 0 && sc.1 == TRIG_SCALE,
        x == 90_000_000 ==> sc.0 == TRIG_SCALE && sc.1 == 0,
{
    proof {
        lemma_base_sin_bounds(x as int);
    }
    let s = base_sin(x);
    proof {
        assert((s as int) * (s as int) <= (TRIG_SCALE as int) * (TRIG_SCALE as int))
            by (nonlinear_arith)
            requires
                0 <= s <= TRIG_SCALE,
        ;
    }
    let rest: u64 = ((TRIG_SCALE as u64) * (TRIG_SCALE as u64)) - ((s as u64) * (s as u64));
    let root = isqrt(rest as u128);
    proof {
        assert(root <= TRIG_SCALE as u64) by (nonlinear_arith)
            requires
                (root as int) * (root as int) <= (TRIG_SCALE as int) * (TRIG_SCALE as int),
                root >= 0,
                TRIG_SCALE >= 1,
        ;
    }
    let c = root as i64;
    proof {
        let ss = s as int;
        let cc = c as int;
        let scale = TRIG_SCALE as int;
        assert(cc * cc <= scale * scale - ss * ss);
        assert(cc <= scale) by (nonlinear_arith)
            requires
                0 <= cc,
                cc * cc <= scale * scale,
                scale > 0,
        ;
        if x == 0 {
            assert(scale * scale - 0 * 0 == scale * scale);
            lemma_isqrt_is(scale * scale, scale);
        }
        if x == 90_000_000 {
            assert(scale * scale - scale * scale == 0) by (nonlinear_arith);
            lemma_isqrt_is(0, 0);
        }
    }
    (s, c)
}

/// Fixed-point sine and cosine over the whole circle, by quadrant symmetry
/// from the first-quadrant pair.
pub open spec fn spec_sin_cos(a: int) -> (int, int) {
    if a < 90_000_000 {
        (spec_base_sin(a), spec_base_cos(a))
    } else if a < 180_000_000 {
        let r = a - 90_000_000;
        (spec_base_cos(r), -spec_base_sin(r))
    } else if a < 270_000_000 {
        let r = a - 180_000_000;
        (-spec_base_sin(r), -spec_base_cos(r))
    } else {
        let r = a - 270_000_000;
        (-spec_base_cos(r), spec_base_sin(r))
    }
}

/// The circle bound is blind to the sign and the order of the pair.
proof fn lemma_circle_symmetry(s: int, c: int)
    requires
        spec_trig_on_circle(s, c),
    ensures
        spec_trig_on_circle(c, s),
        spec_trig_on_circle(-s, c),
        spec_trig_on_circle(s, -c),
        spec_trig_on_circle(-c, s),
        spec_trig_on_circle(c, -s),
{
    assert((-s) * (-s) == s * s && (-c) * (-c) == c * c) by (nonlinear_arith);
}

/// The full-circle pair sits on the fixed-point circle.
pub proof fn lemma_sin_cos_on_circle(a: int)
    requires
        0 <= a < FULL_TURN_UDEG,
    ensures
        spec_trig_on_circle(spec_sin_cos(a).0, spec_sin_cos(a).1),
{
    if a < 90_000_000 {
        lemma_base_on_circle(a);
    } else if a < 180_000_000 {
        lemma_base_on_circle(a - 90_000_000);
        lemma_circle_symmetry(spec_base_sin(a - 90_000_000), spec_base_cos(a - 90_000_000));
        lemma_circle_symmetry(spec_base_cos(a - 90_000_000), spec_base_sin(a - 90_000_000));
    } else if a < 270_000_000 {
        lemma_base_on_circle(a - 180_000_000);
        lemma_circle_symmetry(spec_base_sin(a - 180_000_000), spec_base_cos(a - 180_000_000));
        lemma_circle_symmetry(-spec_base_sin(a - 180_000_000), spec_base_cos(a - 180_000_000));
    } else {
        lemma_base_on_circle(a - 270_000_000);
        lemma_circle_symmetry(spec_base_sin(a - 270_000_000), spec_base_cos(a - 270_000_000));
        lemma_circle_symmetry(spec_base_cos(a - 270_000_000), spec_base_sin(a - 270_000_000));
    }
}

/// Fixed-point sine and cosine over the whole circle.
pub fn sin_cos(a: i64) -> (sc: (i64, i64))
    requires
        0 <= a < FULL_TURN_UDEG,
    ensures
        sc.0 == spec_sin_cos(a as int).0,
        sc.1 == spec_sin_cos(a as int).1,
        spec_trig_on_circle(sc.0 as int, sc.1 as int),
{
    proof {
        lemma_sin_cos_on_circle(a as int);
    }
    if a < 90_000_000 {
        base_sin_cos(a)
    } else if a < 180_000_000 {
        let sc = base_sin_cos(a - 90_000_000);
        (sc.1, -sc.0)
    } else if a < 270_000_000 {
        let sc = base_sin_cos(a - 180_000_000);
        (-sc.0, -sc.1)
    } else {
        let sc = base_sin_cos(a - 270_000_000);
        (-sc.1, sc.0)
    }
}

/// How far the fixed-point pair may fall inside the exact unit circle:
/// `sin^2 + cos^2` lies in `(TRIG_SCALE^2 - slack, TRIG_SCALE^2]`.
pub open spec fn spec_trig_on_circle(s: int, c: int) -> bool {
    &&& -TRIG_SCALE <= s <= TRIG_SCALE
    &&& -TRIG_SCALE <= c <= TRIG_SCALE
    &&& s * s + c * c <= TRIG_SCALE * TRIG_SCALE
    &&& s * s + c * c > TRIG_SCALE * TRIG_SCALE - 2 * TRIG_SCALE - 1
}

/// The base pair sits on the fixed-point circle.
proof fn lemma_base_on_circle(x: int)
    requires
        0 <= x <= 90_000_000,
    ensures
        spec_trig_on_circle(spec_base_sin(x), spec_base_cos(x)),
{
    lemma_base_sin_bounds(x);
    let s = spec_base_sin(x);
    let scale = TRIG_SCALE as int;
    let rest = scale * scale - s * s;
    assert(rest >= 0) by (nonlinear_arith)
        requires
            rest == scale * scale - s * s,
            0 <= s <= scale,
    ;
    let c = spec_isqrt(rest);
    lemma_isqrt_props(rest);
    assert(c <= scale) by (nonlinear_arith)
        requires
            0 <= c,
            c * c <= scale * scale,
            scale > 0,
    ;
    assert(s * s + c * c > scale * scale - 2 * scale - 1) by (nonlinear_arith)
        requires
            rest == scale * scale - s * s,
            rest < (c + 1) * (c + 1),
            0 <= c <= scale,
    ;
}

/// A length or radius a segment may legally carry.
pub open spec fn spec_len_valid(len: int) -> bool {
    0 < len <= MAX_SEGMENT_NM
}

/// Coordinates a chained pose may reach (one thousand kilometres); room
/// enough for any track of at most ten thousand segments.
pub const COORD_LIMIT_NM: i64 = 1_000_000_000_000_000;

/// A 2D pose in the track plane: a position in nanometres and a heading in
/// microdegrees.  Heading zero runs along the positive y axis; positive
/// headings turn towards the negative x axis (to the left).
#[derive(Clone, Copy, Debug, PartialEq, Eq, Structural)]
pub struct SegmentTransform {
    pub x_nm: i64,
    pub y_nm: i64,
    pub heading_udeg: i64,
}

/// An angle folded into `[0, FULL_TURN_UDEG)`, for angles never more than
/// one turn out of range.
pub open spec fn spec_normalize_angle(a: int) -> int {
    if a < 0 {
        a + FULL_TURN_UDEG
    } else if a >= FULL_TURN_UDEG {
        a - FULL_TURN_UDEG
    } else {
        a
    }
}

impl SegmentTransform {
    /// A pose in range: heading folded, coordinates inside the plane limit.
    pub open spec fn spec_wf(self) -> bool {
        &&& 0 <= self.heading_udeg < FULL_TURN_UDEG
        &&& -COORD_LIMIT_NM <= self.x_nm <= COORD_LIMIT_NM
        &&& -COORD_LIMIT_NM <= self.y_nm <= COORD_LIMIT_NM
    }

    /// Where a body-frame offset `(vx, vy)` lands: the offset is rotated by
    /// the heading and added to the position.  Heading zero moves `vy` along
    /// `+y` and `vx` along `+x`.
    pub open spec fn spec_translate_in_direction(self, vx: int, vy: int) -> SegmentTransform {
        let sc = spec_sin_cos(self.heading_udeg as int);
        let s = sc.0;
        let c = sc.1;
        SegmentTransform {
            x_nm: (self.x_nm + (vx * c - vy * s) / (TRIG_SCALE as int)) as i64,
            y_nm: (self.y_nm + (vx * s + vy * c) / (TRIG_SCALE as int)) as i64,
            heading_udeg: self.heading_udeg,
        }
    }

    /// The same pose turned by `delta` microdegrees.
    pub open spec fn spec_rotate(self, delta: int) -> SegmentTransform {
        SegmentTransform {
            x_nm: self.x_nm,
            y_nm: self.y_nm,
            heading_udeg: spec_normalize_angle(self.heading_udeg + delta) as i64,
        }
    }

    /// Rotates a body-frame offset by the heading and adds it to the
    /// position.
    pub fn translate_in_direction(self, vx: i64, vy: i64) -> (t: SegmentTransform)
        requires
            self.spec_wf(),
            -3 * MAX_SEGMENT_NM <= vx <= 3 * MAX_SEGMENT_NM,
            -3 * MAX_SEGMENT_NM <= vy <= 3 * MAX_SEGMENT_NM,
        ensures
            t == self.spec_translate_in_direction(vx as int, vy as int),
            t.heading_udeg == self.heading_udeg,
            -(6 * MAX_SEGMENT_NM + 1) <= t.x_nm - self.x_nm <= 6 * MAX_SEGMENT_NM + 1,
            -(6 * MAX_SEGMENT_NM + 1) <= t.y_nm - self.y_nm <= 6 * MAX_SEGMENT_NM + 1,
    {
        let sc = sin_cos(self.heading_udeg);
        let s = sc.0 as i128;
        let c = sc.1 as i128;
        proof {
            lemma_rotation_numerator_bound(vx as int, vy as int, sc.0 as int, sc.1 as int);
        }
        let nx: i128 = (vx as i128) * c - (vy as i128) * s;
        let ny: i128 = (vx as i128) * s + (vy as i128) * c;
        let qx = crate::motors::floor_div_i128(nx, TRIG_SCALE as i128);
        let qy = crate::motors::floor_div_i128(ny, TRIG_SCALE as i128);
        proof {
            lemma_scaled_quotient_bound(nx as int, 6 * MAX_SEGMENT_NM);
            lemma_scaled_quotient_bound(ny as int, 6 * MAX_SEGMENT_NM);
        }
        SegmentTransform {
            x_nm: self.x_nm + qx as i64,
            y_nm: self.y_nm + qy as i64,
            heading_udeg: self.heading_udeg,
        }
    }

    /// Turns the pose by `delta` microdegrees.
    pub fn rotate(self, delta: i64) -> (t: SegmentTransform)
        requires
            self.spec_wf(),
            -FULL_TURN_UDEG <= delta <= FULL_TURN_UDEG,
        ensures
            t == self.spec_rotate(delta as int),
            0 <= t.heading_udeg < FULL_TURN_UDEG,
            t.x_nm == self.x_nm,
            t.y_nm == self.y_nm,
    {
        let raw = self.heading_udeg + delta;
        let heading_udeg = if raw < 0 {
            raw + FULL_TURN_UDEG
        } else if raw >= FULL_TURN_UDEG {
            raw - FULL_TURN_UDEG
        } else {
            raw
        };
        SegmentTransform { x_nm: self.x_nm, y_nm: self.y_nm, heading_udeg }
    }
}

/// The rotation numerators stay far inside the i128 range.
proof fn lemma_rotation_numerator_bound(vx: int, vy: int, s: int, c: int)
    requires
        -3 * MAX_SEGMENT_NM <= vx <= 3 * MAX_SEGMENT_NM,
        -3 * MAX_SEGMENT_NM <= vy <= 3 * MAX_SEGMENT_NM,
        -TRIG_SCALE <= s <= TRIG_SCALE,
        -TRIG_SCALE <= c <= TRIG_SCALE,
    ensures
        -6 * MAX_SEGMENT_NM * TRIG_SCALE <= vx * c - vy * s <= 6 * MAX_SEGMENT_NM * TRIG_SCALE,
        -6 * MAX_SEGMENT_NM * TRIG_SCALE <= vx * s + vy * c <= 6 * MAX_SEGMENT_NM * TRIG_SCALE,
        -3 * MAX_SEGMENT_NM * TRIG_SCALE <= vx * c <= 3 * MAX_SEGMENT_NM * TRIG_SCALE,
        -3 * MAX_SEGMENT_NM * TRIG_SCALE <= vy * s <= 3 * MAX_SEGMENT_NM * TRIG_SCALE,
        -3 * MAX_SEGMENT_NM * TRIG_SCALE <= vx * s <= 3 * MAX_SEGMENT_NM * TRIG_SCALE,
        -3 * MAX_SEGMENT_NM * TRIG_SCALE <= vy * c <= 3 * MAX_SEGMENT_NM * TRIG_SCALE,
{
    assert(-3 * MAX_SEGMENT_NM * TRIG_SCALE <= vx * c <= 3 * MAX_SEGMENT_NM * TRIG_SCALE
        && -3 * MAX_SEGMENT_NM * TRIG_SCALE <= vy * s <= 3 * MAX_SEGMENT_NM * TRIG_SCALE
        && -3 * MAX_SEGMENT_NM * TRIG_SCALE <= vx * s <= 3 * MAX_SEGMENT_NM * TRIG_SCALE
        && -3 * MAX_SEGMENT_NM * TRIG_SCALE <= vy * c <= 3 * MAX_SEGMENT_NM * TRIG_SCALE)
        by (nonlinear_arith)
        requires
            -3 * MAX_SEGMENT_NM <= vx <= 3 * MAX_SEGMENT_NM,
            -3 * MAX_SEGMENT_NM <= vy <= 3 * MAX_SEGMENT_NM,
            -TRIG_SCALE <= s <= TRIG_SCALE,
            -TRIG_SCALE <= c <= TRIG_SCALE,
    ;
}

/// Dividing a bounded numerator by the trig unit keeps it bounded.
pub(crate) proof fn lemma_scaled_quotient_bound(n: int, b: int)
    requires
        b >= 0,
        -b * TRIG_SCALE <= n <= b * TRIG_SCALE,
    ensures
        -(b + 1) <= n / (TRIG_SCALE as int) <= b,
{
    let scale = TRIG_SCALE as int;
    vstd::arithmetic::div_mod::lemma_multiply_divide_le(n, scale, b);
    assert((scale * (-(b + 1))) / scale == -(b + 1)) by {
        vstd::arithmetic::div_mod::lemma_div_multiples_vanish(-(b + 1), scale);
    }
    assert(scale * (-(b + 1)) <= n) by (nonlinear_arith)
        requires
            -b * TRIG_SCALE <= n,
            scale == TRIG_SCALE as int,
            b >= 0,
    ;
    vstd::arithmetic::div_mod::lemma_div_is_ordered(scale * (-(b + 1)), n, scale);
}

/// One segment of a track.
#[derive(Clone, Copy, Debug, PartialEq, Eq, Structural)]
pub enum TrackSegment {
    /// The start cap, a fixed-length tip.
    Start,
    /// The end cap, a fixed-length tip.
    End,
    /// A straight band of the given length.
    Straight { length_nm: i64 },
    /// An L of two orthogonal bars, bending to the given side.
    NinetyDegTurn { line_half_length_nm: i64, side: Side },
    /// A circular arc of the given radius and sweep, bending to the given
    /// side.
    CircleTurn { radius_nm: i64, angle_udeg: i64, side: Side },
}

impl TrackSegment {
    /// Dimensions a segment may legally carry.
    pub open spec fn spec_valid(self) -> bool {
        match self {
            TrackSegment::Start => true,
            TrackSegment::End => true,
            TrackSegment::Straight { length_nm } => spec_len_valid(length_nm as int),
            TrackSegment::NinetyDegTurn { line_half_length_nm, .. } => spec_len_valid(
                line_half_length_nm as int,
            ) && line_half_length_nm >= TRACK_HALF_WIDTH_NM,
            TrackSegment::CircleTurn { radius_nm, angle_udeg, .. } => spec_len_valid(
                radius_nm as int,
            ) && 0 < angle_udeg < FULL_TURN_UDEG,
        }
    }

    /// Dimensions a segment may legally carry.
    pub fn is_valid(&self) -> (ok: bool)
        ensures
            ok == self.spec_valid(),
    {
        match *self {
            TrackSegment::Start => true,
            TrackSegment::End => true,
            TrackSegment::Straight { length_nm } => 0 < length_nm && length_nm <= MAX_SEGMENT_NM,
            TrackSegment::NinetyDegTurn { line_half_length_nm, .. } => 0 < line_half_length_nm
                && line_half_length_nm <= MAX_SEGMENT_NM && line_half_length_nm
                >= TRACK_HALF_WIDTH_NM,
            TrackSegment::CircleTurn { radius_nm, angle_udeg, .. } => 0 < radius_nm && radius_nm
                <= MAX_SEGMENT_NM && 0 < angle_udeg && angle_udeg < FULL_TURN_UDEG,
        }
    }
}

/// The pose at which the segment after this one begins: the segment's own
/// span, walked from its origin.
pub open spec fn spec_next_origin(segment: TrackSegment, origin: SegmentTransform)
    -> SegmentTransform {
    match segment {
        TrackSegment::Start => origin.spec_translate_in_direction(0, TIP_LENGTH_NM as int),
        TrackSegment::End => origin.spec_translate_in_direction(0, TIP_LENGTH_NM as int),
        TrackSegment::Straight { length_nm } => origin.spec_translate_in_direction(
            0,
            length_nm as int,
        ),
        TrackSegment::NinetyDegTurn { line_half_length_nm, side } => origin
            .spec_translate_in_direction(
            -side.spec_sign() * line_half_length_nm,
            line_half_length_nm as int,
        ).spec_rotate(side.spec_sign() * (QUARTER_TURN_UDEG as int)),
        TrackSegment::CircleTurn { radius_nm, angle_udeg, side } => {
            let sc = spec_sin_cos(angle_udeg as int);
            let dx = side.spec_sign() * ((radius_nm * (sc.1 - TRIG_SCALE)) / (TRIG_SCALE as int));
            let dy = (radius_nm * sc.0) / (TRIG_SCALE as int);
            origin.spec_translate_in_direction(dx, dy).spec_rotate(
                side.spec_sign() * angle_udeg,
            )
        },
    }
}

/// The arc chord offsets stay within three radii.
proof fn lemma_arc_offset_bounds(radius_nm: int, angle_udeg: int)
    requires
        spec_len_valid(radius_nm),
        0 < angle_udeg < FULL_TURN_UDEG,
    ensures
        -2 * radius_nm - 1 <= (radius_nm * (spec_sin_cos(angle_udeg).1 - TRIG_SCALE)) / (
        TRIG_SCALE as int) <= 0,
        -radius_nm - 1 <= (radius_nm * spec_sin_cos(angle_udeg).0) / (TRIG_SCALE as int)
            <= radius_nm,
{
    lemma_sin_cos_on_circle(angle_udeg);
    let s = spec_sin_cos(angle_udeg).0;
    let c = spec_sin_cos(angle_udeg).1;
    assert(-2 * radius_nm * TRIG_SCALE <= radius_nm * (c - TRIG_SCALE) <= 0
        && -radius_nm * TRIG_SCALE <= radius_nm * s <= radius_nm * TRIG_SCALE)
        by (nonlinear_arith)
        requires
            0 < radius_nm,
            -TRIG_SCALE <= s <= TRIG_SCALE,
            -TRIG_SCALE <= c <= TRIG_SCALE,
    ;
    lemma_scaled_quotient_bound(radius_nm * (c - TRIG_SCALE), 2 * radius_nm);
    lemma_scaled_quotient_bound(radius_nm * s, radius_nm);
    vstd::arithmetic::div_mod::lemma_div_is_ordered(
        radius_nm * (c - TRIG_SCALE),
        0,
        TRIG_SCALE as int,
    );
}

/// The pose at which the segment after this one begins.
pub fn compute_next_origin(segment: TrackSegment, origin: SegmentTransform) -> (next:
    SegmentTransform)
    requires
        segment.spec_valid(),
        origin.spec_wf(),
        -COORD_LIMIT_NM + 7 * MAX_SEGMENT_NM <= origin.x_nm <= COORD_LIMIT_NM - 7
            * MAX_SEGMENT_NM,
        -COORD_LIMIT_NM + 7 * MAX_SEGMENT_NM <= origin.y_nm <= COORD_LIMIT_NM - 7
            * MAX_SEGMENT_NM,
    ensures
        next == spec_next_origin(segment, origin),
        next.spec_wf(),
        -(7 * MAX_SEGMENT_NM) <= next.x_nm - origin.x_nm <= 7 * MAX_SEGMENT_NM,
        -(7 * MAX_SEGMENT_NM) <= next.y_nm - origin.y_nm <= 7 * MAX_SEGMENT_NM,
{
    match segment {
        TrackSegment::Start => origin.translate_in_direction(0, TIP_LENGTH_NM),
        TrackSegment::End => origin.translate_in_direction(0, TIP_LENGTH_NM),
        TrackSegment::Straight { length_nm } => origin.translate_in_direction(0, length_nm),
        TrackSegment::NinetyDegTurn { line_half_length_nm, side } => {
            let sgn = side.sign();
            proof {
                assert(-MAX_SEGMENT_NM <= -sgn * line_half_length_nm <= MAX_SEGMENT_NM
                    && -FULL_TURN_UDEG <= sgn * QUARTER_TURN_UDEG <= FULL_TURN_UDEG)
                    by (nonlinear_arith)
                    requires
                        sgn == 1i64 || sgn == -1i64,
                        0 < line_half_length_nm <= MAX_SEGMENT_NM,
                ;
            }
            let moved = origin.translate_in_direction(
                -sgn * line_half_length_nm,
                line_half_length_nm,
            );
            moved.rotate(sgn * QUARTER_TURN_UDEG)
        },
        TrackSegment::CircleTurn { radius_nm, angle_udeg, side } => {
            let sgn = side.sign();
            let sc = sin_cos(angle_udeg);
            proof {
                lemma_arc_offset_bounds(radius_nm as int, angle_udeg as int);
                assert(-2 * MAX_SEGMENT_NM * TRIG_SCALE <= (radius_nm as int) * ((sc.1
                    - TRIG_SCALE) as int) <= 0 && -MAX_SEGMENT_NM * TRIG_SCALE <= (
                radius_nm as int) * (sc.0 as int) <= MAX_SEGMENT_NM * TRIG_SCALE)
                    by (nonlinear_arith)
                    requires
                        0 < radius_nm <= MAX_SEGMENT_NM,
                        -TRIG_SCALE <= sc.0 <= TRIG_SCALE,
                        -TRIG_SCALE <= sc.1 <= TRIG_SCALE,
                ;
            }
            let chord = crate::motors::floor_div_i128(
                (radius_nm as i128) * ((sc.1 - TRIG_SCALE) as i128),
                TRIG_SCALE as i128,
            ) as i64;
            let dy = crate::motors::floor_div_i128((radius_nm as i128) * (sc.0 as i128), TRIG_SCALE as i128) as i64;
            proof {
                assert(-3 * MAX_SEGMENT_NM <= sgn * chord <= 3 * MAX_SEGMENT_NM
                    && -FULL_TURN_UDEG <= sgn * angle_udeg <= FULL_TURN_UDEG)
                    by (nonlinear_arith)
                    requires
                        sgn == 1i64 || sgn == -1i64,
                        -2 * MAX_SEGMENT_NM - 1 <= chord <= 0,
                        0 < angle_udeg < FULL_TURN_UDEG,
                        MAX_SEGMENT_NM >= 1,
                ;
            }
            let dx = sgn * chord;
            let moved = origin.translate_in_direction(dx, dy);
            moved.rotate(sgn * angle_udeg)
        },
    }
}

/// What one chaining step does to a pose, seen purely at the level of the
/// model: the next origin is in range again and moves by less than one
/// segment's reach.
pub proof fn lemma_next_origin_props(segment: TrackSegment, origin: SegmentTransform)
    requires
        segment.spec_valid(),
        origin.spec_wf(),
        -COORD_LIMIT_NM + 7 * MAX_SEGMENT_NM <= origin.x_nm <= COORD_LIMIT_NM - 7
            * MAX_SEGMENT_NM,
        -COORD_LIMIT_NM + 7 * MAX_SEGMENT_NM <= origin.y_nm <= COORD_LIMIT_NM - 7
            * MAX_SEGMENT_NM,
    ensures
        spec_next_origin(segment, origin).spec_wf(),
        -(7 * MAX_SEGMENT_NM) <= spec_next_origin(segment, origin).x_nm - origin.x_nm <= 7
            * MAX_SEGMENT_NM,
        -(7 * MAX_SEGMENT_NM) <= spec_next_origin(segment, origin).y_nm - origin.y_nm <= 7
            * MAX_SEGMENT_NM,
{
    lemma_sin_cos_on_circle(origin.heading_udeg as int);
    let hsc = spec_sin_cos(origin.heading_udeg as int);
    let next = spec_next_origin(segment, origin);
    match segment {
        TrackSegment::Start | TrackSegment::End => {
            lemma_translate_step_bound(origin, 0, TIP_LENGTH_NM as int);
        },
        TrackSegment::Straight { length_nm } => {
            lemma_translate_step_bound(origin, 0, length_nm as int);
        },
        TrackSegment::NinetyDegTurn { line_half_length_nm, side } => {
            let vx = -side.spec_sign() * line_half_length_nm;
            assert(-MAX_SEGMENT_NM <= vx <= MAX_SEGMENT_NM) by (nonlinear_arith)
                requires
                    side.spec_sign() == 1 || side.spec_sign() == -1,
                    vx == -side.spec_sign() * line_half_length_nm,
                    0 < line_half_length_nm <= MAX_SEGMENT_NM,
            ;
            lemma_translate_step_bound(origin, vx, line_half_length_nm as int);
        },
        TrackSegment::CircleTurn { radius_nm, angle_udeg, side } => {
            lemma_arc_offset_bounds(radius_nm as int, angle_udeg as int);
            let sc = spec_sin_cos(angle_udeg as int);
            let chord = (radius_nm * (sc.1 - TRIG_SCALE)) / (TRIG_SCALE as int);
            let dx = side.spec_sign() * chord;
            let dy = (radius_nm * sc.0) / (TRIG_SCALE as int);
            assert(-3 * MAX_SEGMENT_NM <= dx <= 3 * MAX_SEGMENT_NM) by (nonlinear_arith)
                requires
                    side.spec_sign() == 1 || side.spec_sign() == -1,
                    dx == side.spec_sign() * chord,
                    -2 * MAX_SEGMENT_NM - 1 <= chord <= 0,
                    MAX_SEGMENT_NM >= 1,
            ;
            lemma_translate_step_bound(origin, dx, dy);
        },
    }
}

/// A translation by offsets within three segment-reaches moves a pose by
/// less than seven.
proof fn lemma_translate_step_bound(origin: SegmentTransform, vx: int, vy: int)
    requires
        origin.spec_wf(),
        -3 * MAX_SEGMENT_NM <= vx <= 3 * MAX_SEGMENT_NM,
        -3 * MAX_SEGMENT_NM <= vy <= 3 * MAX_SEGMENT_NM,
    ensures
        -(7 * MAX_SEGMENT_NM) <= origin.spec_translate_in_direction(vx, vy).x_nm - origin.x_nm
            <= 7 * MAX_SEGMENT_NM,
        -(7 * MAX_SEGMENT_NM) <= origin.spec_translate_in_direction(vx, vy).y_nm - origin.y_nm
            <= 7 * MAX_SEGMENT_NM,
        origin.spec_translate_in_direction(vx, vy).heading_udeg == origin.heading_udeg,
{
    lemma_sin_cos_on_circle(origin.heading_udeg as int);
    let sc = spec_sin_cos(origin.heading_udeg as int);
    lemma_rotation_numerator_bound(vx, vy, sc.0, sc.1);
    lemma_scaled_quotient_bound(vx * sc.1 - vy * sc.0, 6 * MAX_SEGMENT_NM);
    lemma_scaled_quotient_bound(vx * sc.0 + vy * sc.1, 6 * MAX_SEGMENT_NM);
}

/// The pose at which every track begins: half a tip length before the
/// origin, heading along the positive y axis.
pub open spec fn spec_chain_start() -> SegmentTransform {
    SegmentTransform { x_nm: 0i64, y_nm: -50_000_000i64, heading_udeg: 0i64 }
}

/// The pose at which every track begins.
pub fn chain_start() -> (t: SegmentTransform)
    ensures
        t == spec_chain_start(),
{
    SegmentTransform { x_nm: 0i64, y_nm: -50_000_000i64, heading_udeg: 0i64 }
}

/// The origins of every segment of a chain, from the standard start pose,
/// and, one past the end, the pose after the last segment.
pub open spec fn spec_track_origins(segments: Seq<TrackSegment>) -> Seq<SegmentTransform>
    decreases segments.len(),
{
    if segments.len() == 0 {
        seq![spec_chain_start()]
    } else {
        let prev = spec_track_origins(segments.drop_last());
        prev.push(spec_next_origin(segments.last(), prev.last()))
    }
}

/// A list of segments that makes a legal track: it opens with the start
/// cap, closes with the end cap, carries legal dimensions throughout, and
/// is short enough that its poses stay inside the plane limit.
pub open spec fn spec_chain_valid(segments: Seq<TrackSegment>) -> bool {
    &&& 2 <= segments.len() <= 10_000
    &&& segments[0] == TrackSegment::Start
    &&& segments.last() == TrackSegment::End
    &&& forall|i: int| 0 <= i < segments.len() ==> (#[trigger] segments[i]).spec_valid()
}

/// Every pose of a chain is in range, and stays within the reach of the
/// segments walked so far.
pub proof fn lemma_track_origins_wf(segments: Seq<TrackSegment>)
    requires
        segments.len() <= 10_000,
        forall|i: int| 0 <= i < segments.len() ==> (#[trigger] segments[i]).spec_valid(),
    ensures
        spec_track_origins(segments).len() == segments.len() + 1,
        forall|i: int|
            0 <= i < segments.len() + 1 ==> (#[trigger] spec_track_origins(segments)[i]).spec_wf(),
        forall|i: int|
            0 <= i < segments.len() + 1 ==> -50_000_000 - i * (7 * MAX_SEGMENT_NM) <= (
            #[trigger] spec_track_origins(segments)[i]).x_nm <= 50_000_000 + i * (7
                * MAX_SEGMENT_NM),
        forall|i: int|
            0 <= i < segments.len() + 1 ==> -50_000_000 - i * (7 * MAX_SEGMENT_NM) <= (
            #[trigger] spec_track_origins(segments)[i]).y_nm <= 50_000_000 + i * (7
                * MAX_SEGMENT_NM),
    decreases segments.len(),
{
    if segments.len() == 0 {
        assert(spec_track_origins(segments)[0] == spec_chain_start());
    } else {
        let prev = spec_track_origins(segments.drop_last());
        lemma_track_origins_wf(segments.drop_last());
        let n = segments.len() - 1;
        let last_pose = prev[n];
        assert(prev.last() == last_pose);
        assert(-50_000_000 - n * (7 * MAX_SEGMENT_NM) <= last_pose.x_nm <= 50_000_000 + n * (7
            * MAX_SEGMENT_NM));
        assert(50_000_000 + n * (7 * MAX_SEGMENT_NM) <= COORD_LIMIT_NM - 7 * MAX_SEGMENT_NM)
            by (nonlinear_arith)
            requires
                0 <= n <= 10_000,
        ;
        assert(segments.last().spec_valid());
        lemma_next_origin_props(segments.last(), last_pose);
        assert forall|i: int| 0 <= i < segments.len() + 1 implies (#[trigger] spec_track_origins(
            segments,
        )[i]).spec_wf() by {
            if i < segments.len() {
                assert(spec_track_origins(segments)[i] == prev[i]);
            }
        }
        assert forall|i: int|
            0 <= i < segments.len() + 1 implies -50_000_000 - i * (7 * MAX_SEGMENT_NM) <= (
        #[trigger] spec_track_origins(segments)[i]).x_nm <= 50_000_000 + i * (7
            * MAX_SEGMENT_NM) by {
            if i < segments.len() {
                assert(spec_track_origins(segments)[i] == prev[i]);
                assert((i - 1) * (7 * MAX_SEGMENT_NM) <= i * (7 * MAX_SEGMENT_NM)
                    && i * (7 * MAX_SEGMENT_NM) <= (i + 1) * (7 * MAX_SEGMENT_NM))
                    by (nonlinear_arith)
                    requires
                        i >= 0,
                ;
            } else {
                assert((n + 1) * (7 * MAX_SEGMENT_NM) == n * (7 * MAX_SEGMENT_NM) + 7
                    * MAX_SEGMENT_NM) by (nonlinear_arith);
            }
        }
        assert forall|i: int|
            0 <= i < segments.len() + 1 implies -50_000_000 - i * (7 * MAX_SEGMENT_NM) <= (
        #[trigger] spec_track_origins(segments)[i]).y_nm <= 50_000_000 + i * (7
            * MAX_SEGMENT_NM) by {
            if i < segments.len() {
                assert(spec_track_origins(segments)[i] == prev[i]);
                assert((i - 1) * (7 * MAX_SEGMENT_NM) <= i * (7 * MAX_SEGMENT_NM)
                    && i * (7 * MAX_SEGMENT_NM) <= (i + 1) * (7 * MAX_SEGMENT_NM))
                    by (nonlinear_arith)
                    requires
                        i >= 0,
                ;
            } else {
                assert((n + 1) * (7 * MAX_SEGMENT_NM) == n * (7 * MAX_SEGMENT_NM) + 7
                    * MAX_SEGMENT_NM) by (nonlinear_arith);
            }
        }
    }
}

/// The origins of every segment of a chain, with the pose after the last
/// segment appended one past the end.
pub fn track_origins(segments: &Vec<TrackSegment>) -> (origins: Vec<SegmentTransform>)
    requires
        segments@.len() <= 10_000,
        forall|i: int| 0 <= i < segments@.len() ==> (#[trigger] segments@[i]).spec_valid(),
    ensures
        origins@ == spec_track_origins(segments@),
{
    let mut origins: Vec<SegmentTransform> = Vec::new();
    origins.push(chain_start());
    let mut i: usize = 0;
    while i < segments.len()
        invariant
            i <= segments@.len() <= 10_000,
            forall|j: int| 0 <= j < segments@.len() ==> (#[trigger] segments@[j]).spec_valid(),
            origins@ == spec_track_origins(segments@.take(i as int)),
            origins@.len() == i + 1,
        decreases segments@.len() - i,
    {
        proof {
            lemma_track_origins_wf(segments@.take(i as int));
            assert(50_000_000 + (i as int) * (7 * MAX_SEGMENT_NM) <= COORD_LIMIT_NM - 7
                * MAX_SEGMENT_NM) by (nonlinear_arith)
                requires
                    0 <= i as int <= 10_000,
            ;
            assert(segments@.take(i as int + 1).drop_last() =~= segments@.take(i as int));
            assert(segments@.take(i as int + 1).last() == segments@[i as int]);
        }
        let last = origins[origins.len() - 1];
        let next = compute_next_origin(segments[i], last);
        origins.push(next);
        i = i + 1;
    }
    proof {
        assert(segments@.take(segments@.len() as int) =~= segments@);
    }
    origins
}

/// Arc symmetry in the heading: a circle turn of some sweep to one side,
/// chained into the same turn to the other side, restores the heading the
/// chain came in with.
#[verifier::rlimit(50)]
pub proof fn lemma_arc_symmetry_heading(
    origin: SegmentTransform,
    radius_nm: i64,
    angle_udeg: i64,
)
    requires
        origin.spec_wf(),
        spec_len_valid(radius_nm as int),
        0 < angle_udeg < FULL_TURN_UDEG,
    ensures
        spec_next_origin(
            TrackSegment::CircleTurn { radius_nm, angle_udeg, side: Side::Right },
            spec_next_origin(
                TrackSegment::CircleTurn { radius_nm, angle_udeg, side: Side::Left },
                origin,
            ),
        ).heading_udeg == origin.heading_udeg,
{
    let turn_left = TrackSegment::CircleTurn { radius_nm, angle_udeg, side: Side::Left };
    let turn_right = TrackSegment::CircleTurn { radius_nm, angle_udeg, side: Side::Right };
    let mid = spec_next_origin(turn_left, origin);
    let back = spec_next_origin(turn_right, mid);
    lemma_circle_turn_heading(origin, radius_nm, angle_udeg, Side::Left);
    lemma_circle_turn_heading(mid, radius_nm, angle_udeg, Side::Right);
    let h = origin.heading_udeg as int;
    assert(mid.heading_udeg == spec_normalize_angle(h + 1 * angle_udeg));
    assert(back.heading_udeg == spec_normalize_angle(mid.heading_udeg + (-1) * angle_udeg));
    if h + angle_udeg < FULL_TURN_UDEG {
        assert(mid.heading_udeg == h + angle_udeg);
    } else {
        assert(mid.heading_udeg == h + angle_udeg - FULL_TURN_UDEG);
    }
}

/// The heading a circle turn leaves behind: the origin's heading plus the
/// signed sweep, folded into one turn.
#[verifier::rlimit(50)]
proof fn lemma_circle_turn_heading(
    origin: SegmentTransform,
    radius_nm: i64,
    angle_udeg: i64,
    side: Side,
)
    requires
        0 <= origin.heading_udeg < FULL_TURN_UDEG,
        0 < angle_udeg < FULL_TURN_UDEG,
    ensures
        spec_next_origin(
            TrackSegment::CircleTurn { radius_nm, angle_udeg, side },
            origin,
        ).heading_udeg == spec_normalize_angle(
            origin.heading_udeg + side.spec_sign() * angle_udeg,
        ),
{
    let seg = TrackSegment::CircleTurn { radius_nm, angle_udeg, side };
    let sc = spec_sin_cos(angle_udeg as int);
    let dx = side.spec_sign() * ((radius_nm * (sc.1 - TRIG_SCALE)) / (TRIG_SCALE as int));
    let dy = (radius_nm * sc.0) / (TRIG_SCALE as int);
    let moved = origin.spec_translate_in_direction(dx, dy);
    assert(spec_next_origin(seg, origin) == moved.spec_rotate(side.spec_sign() * angle_udeg));
    assert(moved.heading_udeg == origin.heading_udeg);
    let delta = side.spec_sign() * angle_udeg;
    assert(delta == angle_udeg || delta == -angle_udeg) by (nonlinear_arith)
        requires
            side.spec_sign() == 1 || side.spec_sign() == -1,
            delta == side.spec_sign() * angle_udeg,
    ;
    assert(-FULL_TURN_UDEG < origin.heading_udeg + delta < 2 * FULL_TURN_UDEG);
    assert(moved.spec_rotate(delta).heading_udeg == spec_normalize_angle(
        origin.heading_udeg + delta,
    ));
}

/// The tip of an end cap stands within one micrometre of the tip length
/// from the cap's origin, whatever the heading: the fixed-point rotation
/// preserves lengths to that tolerance.
#[verifier::rlimit(50)]
pub proof fn lemma_tip_distance(origin: SegmentTransform)
    requires
        origin.spec_wf(),
    ensures
        ({
            let tip = spec_next_origin(TrackSegment::End, origin);
            let dx = tip.x_nm - origin.x_nm;
            let dy = tip.y_nm - origin.y_nm;
            (TIP_LENGTH_NM - 1000) * (TIP_LENGTH_NM - 1000) <= dx * dx + dy * dy <= (
            TIP_LENGTH_NM + 1000) * (TIP_LENGTH_NM + 1000)
        }),
{
    let h = origin.heading_udeg as int;
    lemma_sin_cos_on_circle(h);
    let sc = spec_sin_cos(h);
    let s = sc.0;
    let c = sc.1;
    let ell = TIP_LENGTH_NM as int;
    let scale = TRIG_SCALE as int;
    let na = 0 * c - ell * s;
    let nb = 0 * s + ell * c;
    let dx = na / scale;
    let dy = nb / scale;

    lemma_translate_step_bound(origin, 0, ell);
    let tip = spec_next_origin(TrackSegment::End, origin);
    assert(tip == origin.spec_translate_in_direction(0, ell));
    assert(tip.x_nm - origin.x_nm == dx && tip.y_nm - origin.y_nm == dy);

    vstd::arithmetic::div_mod::lemma_fundamental_div_mod(na, scale);
    vstd::arithmetic::div_mod::lemma_mod_bound(na, scale);
    vstd::arithmetic::div_mod::lemma_fundamental_div_mod(nb, scale);
    vstd::arithmetic::div_mod::lemma_mod_bound(nb, scale);
    let r1 = na % scale;
    let r2 = nb % scale;
    assert(scale * dx == na - r1 && scale * dy == nb - r2);

    // The two numerators are the rotated tip offset, scaled by the trig
    // unit; their squared length is the tip length squared, up to the
    // circle slack.
    assert(na * na + nb * nb == ell * ell * (s * s + c * c)) by (nonlinear_arith)
        requires
            na == 0 * c - ell * s,
            nb == 0 * s + ell * c,
    ;
    assert(ell * ell * (scale * scale - 2 * scale - 1) < na * na + nb * nb <= ell * ell * (scale
        * scale)) by (nonlinear_arith)
        requires
            na * na + nb * nb == ell * ell * (s * s + c * c),
            scale * scale - 2 * scale - 1 < s * s + c * c,
            s * s + c * c <= scale * scale,
            ell == 100_000_000,
            scale == 1_048_576,
    ;
    assert(-ell * scale <= na <= ell * scale && -ell * scale <= nb <= ell * scale)
        by (nonlinear_arith)
        requires
            na == 0 * c - ell * s,
            nb == 0 * s + ell * c,
            -scale <= s <= scale,
            -scale <= c <= scale,
            ell == 100_000_000,
    ;

    // Squared length of the rounded offset, against the unrounded one:
    // name each cross term once so the pieces recombine linearly.
    let spread = dx * dx + dy * dy;
    let base = na * na + nb * nb;
    let cross1 = na * r1;
    let cross2 = nb * r2;
    let round = r1 * r1 + r2 * r2;
    assert(scale * scale * spread == base - 2 * cross1 - 2 * cross2 + round) by (nonlinear_arith)
        requires
            scale * dx == na - r1,
            scale * dy == nb - r2,
            spread == dx * dx + dy * dy,
            base == na * na + nb * nb,
            cross1 == na * r1,
            cross2 == nb * r2,
            round == r1 * r1 + r2 * r2,
    ;
    assert(-(ell * scale) * scale <= cross1 <= (ell * scale) * scale && -(ell * scale) * scale
        <= cross2 <= (ell * scale) * scale && 0 <= round <= 2 * (scale * scale))
        by (nonlinear_arith)
        requires
            cross1 == na * r1,
            cross2 == nb * r2,
            round == r1 * r1 + r2 * r2,
            -ell * scale <= na <= ell * scale,
            -ell * scale <= nb <= ell * scale,
            0 <= r1 < scale,
            0 <= r2 < scale,
            ell == 100_000_000,
            scale == 1_048_576,
    ;

    // Collect both sides against the stated micrometre tolerance; all the
    // remaining factors are literal constants.
    assert(scale * scale * spread <= scale * scale * ((ell + 1000) * (ell + 1000)))
        by (nonlinear_arith)
        requires
            scale * scale * spread == base - 2 * cross1 - 2 * cross2 + round,
            base <= ell * ell * (scale * scale),
            -(ell * scale) * scale <= cross1,
            -(ell * scale) * scale <= cross2,
            round <= 2 * (scale * scale),
            ell == 100_000_000,
            scale == 1_048_576,
    ;
    assert(scale * scale * spread >= scale * scale * ((ell - 1000) * (ell - 1000)))
        by (nonlinear_arith)
        requires
            scale * scale * spread == base - 2 * cross1 - 2 * cross2 + round,
            base > ell * ell * (scale * scale - 2 * scale - 1),
            cross1 <= (ell * scale) * scale,
            cross2 <= (ell * scale) * scale,
            round >= 0,
            ell == 100_000_000,
            scale == 1_048_576,
    ;
    assert((ell - 1000) * (ell - 1000) <= spread <= (ell + 1000) * (ell + 1000))
        by (nonlinear_arith)
        requires
            scale * scale * spread <= scale * scale * ((ell + 1000) * (ell + 1000)),
            scale * scale * spread >= scale * scale * ((ell - 1000) * (ell - 1000)),
            scale == 1_048_576,
    ;
}

/// Chain closure: in any legal track, the pose chain closes onto the end
/// cap -- the distance between the end cap's origin and the chain's final
/// pose is the tip length, within one micrometre.
pub proof fn lemma_chain_closure(segments: Seq<TrackSegment>)
    requires
        spec_chain_valid(segments),
    ensures
        ({
            let origins = spec_track_origins(segments);
            let last_origin = origins[origins.len() - 2];
            let tip = origins.last();
            let dx = tip.x_nm - last_origin.x_nm;
            let dy = tip.y_nm - last_origin.y_nm;
            (TIP_LENGTH_NM - 1000) * (TIP_LENGTH_NM - 1000) <= dx * dx + dy * dy <= (
            TIP_LENGTH_NM + 1000) * (TIP_LENGTH_NM + 1000)
        }),
{
    lemma_track_origins_wf(segments);
    let origins = spec_track_origins(segments);
    let prev = spec_track_origins(segments.drop_last());
    lemma_track_origins_wf(segments.drop_last());
    assert(origins == prev.push(spec_next_origin(segments.last(), prev.last())));
    assert(origins[origins.len() - 2] == prev.last());
    lemma_tip_distance(prev.last());
}

/// Largest local coordinate the line-distance query accepts (one
/// kilometre): keeps the squared radius inside its machine type.
pub const LOCAL_POINT_LIMIT_NM: i64 = 1_000_000_000_000;

/// Signed distance, in the segment's local frame, from a point to the
/// centre of the painted line: `lx` runs across the line, `ly` along it.
/// For the L of a ninety-degree turn the frame splits along the corner
/// diagonal; for an arc the line is the circle of the arc's radius around
/// the local origin, signed towards the turn's side.
pub open spec fn spec_line_distance(segment: TrackSegment, lx: int, ly: int) -> int {
    match segment {
        TrackSegment::Start => lx,
        TrackSegment::End => lx,
        TrackSegment::Straight { .. } => lx,
        TrackSegment::NinetyDegTurn { line_half_length_nm, side } => {
            let ty = (line_half_length_nm - TRACK_HALF_WIDTH_NM) / 2;
            if ly < side.spec_sign() * lx + ty {
                lx
            } else {
                side.spec_sign() * (ly - ty)
            }
        },
        TrackSegment::CircleTurn { radius_nm, side, .. } => (spec_isqrt(lx * lx + ly * ly)
            - radius_nm) * side.spec_sign(),
    }
}

/// Signed distance from a local point to the centre of the painted line.
pub fn line_distance(segment: TrackSegment, lx: i64, ly: i64) -> (d: i64)
    requires
        segment.spec_valid(),
        -LOCAL_POINT_LIMIT_NM <= lx <= LOCAL_POINT_LIMIT_NM,
        -LOCAL_POINT_LIMIT_NM <= ly <= LOCAL_POINT_LIMIT_NM,
    ensures
        d == spec_line_distance(segment, lx as int, ly as int),
{
    match segment {
        TrackSegment::Start => lx,
        TrackSegment::End => lx,
        TrackSegment::Straight { .. } => lx,
        TrackSegment::NinetyDegTurn { line_half_length_nm, side } => {
            let sgn = side.sign();
            let ty = (line_half_length_nm - TRACK_HALF_WIDTH_NM) / 2;
            proof {
                lemma_div_pos_is_pos(line_half_length_nm - TRACK_HALF_WIDTH_NM, 2);
                vstd::arithmetic::div_mod::lemma_div_is_ordered(
                    line_half_length_nm - TRACK_HALF_WIDTH_NM,
                    MAX_SEGMENT_NM as int,
                    2,
                );
                assert(-2 * LOCAL_POINT_LIMIT_NM <= sgn * lx <= 2 * LOCAL_POINT_LIMIT_NM
                    && -2 * LOCAL_POINT_LIMIT_NM <= sgn * (ly - ty) <= 2 * LOCAL_POINT_LIMIT_NM)
                    by (nonlinear_arith)
                    requires
                        sgn == 1i64 || sgn == -1i64,
                        -LOCAL_POINT_LIMIT_NM <= lx <= LOCAL_POINT_LIMIT_NM,
                        -LOCAL_POINT_LIMIT_NM <= ly <= LOCAL_POINT_LIMIT_NM,
                        0 <= ty <= MAX_SEGMENT_NM,
                ;
            }
            if ly < sgn * lx + ty {
                lx
            } else {
                sgn * (ly - ty)
            }
        },
        TrackSegment::CircleTurn { radius_nm, side, .. } => {
            let sgn = side.sign();
            proof {
                assert(0 <= (lx as int) * (lx as int) <= 1_000_000_000_000_000_000_000_000i128
                    && 0 <= (ly as int) * (ly as int) <= 1_000_000_000_000_000_000_000_000i128)
                    by (nonlinear_arith)
                    requires
                        -LOCAL_POINT_LIMIT_NM <= lx <= LOCAL_POINT_LIMIT_NM,
                        -LOCAL_POINT_LIMIT_NM <= ly <= LOCAL_POINT_LIMIT_NM,
                ;
            }
            let sq: u128 = ((lx as i128) * (lx as i128) + (ly as i128) * (ly as i128)) as u128;
            let root = isqrt(sq);
            proof {
                assert(0 <= root <= 2_000_000_000_000u64) by (nonlinear_arith)
                    requires
                        (root as int) * (root as int) <= sq as int,
                        sq <= 2_000_000_000_000_000_000_000_000u128,
                ;
            }
            let radial = root as i64;
            proof {
                assert(-4_000_000_000_000i64 <= (radial - radius_nm) * sgn
                    <= 4_000_000_000_000i64) by (nonlinear_arith)
                    requires
                        sgn == 1i64 || sgn == -1i64,
                        0 <= radial <= 2_000_000_000_000i64,
                        0 < radius_nm <= MAX_SEGMENT_NM,
                ;
            }
            (radial - radius_nm) * sgn
        },
    }
}

/// What the downward body ray says about where the robot stands: a hit on
/// the end cap is `End`, any other hit is `OnTrack`, a miss is `Out`.
pub fn classify_bot_position(hit: Option<&TrackSegment>) -> (p: crate::sensors::BotPosition)
    ensures
        p == (match hit {
            Some(TrackSegment::End) => crate::sensors::BotPosition::End,
            Some(_) => crate::sensors::BotPosition::OnTrack,
            None => crate::sensors::BotPosition::Out,
        }),
{
    match hit {
        Option::Some(TrackSegment::End) => crate::sensors::BotPosition::End,
        Option::Some(_) => crate::sensors::BotPosition::OnTrack,
        Option::None => crate::sensors::BotPosition::Out,
    }
}

/// Why a list of segments cannot make a track.
#[derive(Clone, Copy, Debug, PartialEq, Eq, Structural)]
pub enum ChainError {
    /// Fewer than two segments, or more than the plane limit admits.
    BadLength,
    /// The chain does not open with the start cap.
    NoStartCap,
    /// The chain does not close with the end cap.
    NoEndCap,
    /// Some segment carries an illegal dimension.
    BadDimensions,
}

/// The first fault of a segment list, in the order the builder checks.
pub open spec fn spec_chain_error(segments: Seq<TrackSegment>) -> Option<ChainError> {
    if segments.len() < 2 || segments.len() > 10_000 {
        Some(ChainError::BadLength)
    } else if segments[0] != TrackSegment::Start {
        Some(ChainError::NoStartCap)
    } else if segments.last() != TrackSegment::End {
        Some(ChainError::NoEndCap)
    } else if !(forall|i: int| 0 <= i < segments.len() ==> (#[trigger] segments[i]).spec_valid()) {
        Some(ChainError::BadDimensions)
    } else {
        None
    }
}

/// A whole track: its segments and the absolute pose each one starts at,
/// immutable once built.  The pose one past the last segment is the
/// chain's final pose.
pub struct Track {
    segments: Vec<TrackSegment>,
    origins: Vec<SegmentTransform>,
}

impl Track {
    /// The segments a track holds.
    pub closed spec fn spec_segments(&self) -> Seq<TrackSegment> {
        self.segments@
    }

    /// A track's origins are always the chain of its segments.
    pub closed spec fn spec_wf(&self) -> bool {
        &&& spec_chain_valid(self.segments@)
        &&& self.origins@ == spec_track_origins(self.segments@)
    }

    /// What well-formedness gives every reader: the chain is legal.
    pub proof fn lemma_wf_chain(&self)
        requires
            self.spec_wf(),
        ensures
            spec_chain_valid(self.spec_segments()),
    {
    }

    /// Builds a track from a legal chain of segments: it must open with
    /// the start cap, close with the end cap, and carry legal dimensions
    /// throughout; the first fault found is reported.
    pub fn new(segments: Vec<TrackSegment>) -> (track: Result<Track, ChainError>)
        ensures
            track matches Ok(t) ==> t.spec_wf() && t.spec_segments() == segments@,
            track is Ok <==> spec_chain_valid(segments@),
            track matches Err(e) ==> spec_chain_error(segments@) == Some(e),
    {
        if segments.len() < 2 || segments.len() > 10_000 {
            return Err(ChainError::BadLength);
        }
        match segments[0] {
            TrackSegment::Start => {},
            _ => { return Err(ChainError::NoStartCap) },
        }
        match segments[segments.len() - 1] {
            TrackSegment::End => {},
            _ => { return Err(ChainError::NoEndCap) },
        }
        let mut i: usize = 0;
        while i < segments.len()
            invariant
                i <= segments@.len(),
                2 <= segments@.len() <= 10_000,
                segments@[0] == TrackSegment::Start,
                segments@.last() == TrackSegment::End,
                forall|j: int| 0 <= j < i ==> (#[trigger] segments@[j]).spec_valid(),
            decreases segments@.len() - i,
        {
            if !segments[i].is_valid() {
                proof {
                    assert(!(forall|j: int|
                        0 <= j < segments@.len() ==> (#[trigger] segments@[j]).spec_valid())) by {
                        assert(!segments@[i as int].spec_valid());
                    }
                }
                return Err(ChainError::BadDimensions);
            }
            i = i + 1;
        }
        let origins = track_origins(&segments);
        Ok(Track { segments, origins })
    }

    /// How many segments the track holds.
    pub fn len(&self) -> (n: usize)
        ensures
            n == self.spec_segments().len(),
    {
        self.segments.len()
    }

    /// The segment at an index.
    pub fn segment(&self, i: usize) -> (s: TrackSegment)
        requires
            i < self.spec_segments().len(),
        ensures
            s == self.spec_segments()[i as int],
    {
        self.segments[i]
    }

    /// The absolute pose at which a segment begins; one past the end, the
    /// chain's final pose.
    pub fn origin(&self, i: usize) -> (t: SegmentTransform)
        requires
            self.spec_wf(),
            i <= self.spec_segments().len(),
        ensures
            t == spec_track_origins(self.spec_segments())[i as int],
    {
        proof {
            lemma_track_origins_wf(self.segments@);
        }
        self.origins[i]
    }
}

} // verus!
