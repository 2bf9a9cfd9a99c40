//! The line-reflectance sensor model: a black line of fixed width on a
//! white floor, with a smooth transition band, plus a deterministic noise
//! source that stands in for sensor noise.
//!
//! Reflectance runs from 0 (black) to 100 (white) over a distance given in
//! nanometres from the line centre.

use vstd::prelude::*;

verus! {

use vstd::arithmetic::div_mod::{
    lemma_div_is_ordered,
    lemma_div_multiples_vanish,
    lemma_div_pos_is_pos,
    lemma_multiply_divide_le,
};
use vstd::math::abs;

/// Width of the painted line, in nanometres (0.02 m).
pub const LINE_SIZE_NM: i64 = 20_000_000;

/// Half the width of the painted line.
pub const LINE_HALF_NM: i64 = 10_000_000;

/// Width of the black-to-white transition band, in nanometres: one line
/// width.
pub const TRANSITION_NM: i64 = 20_000_000;

/// The smoothstep bulk `u^2 * (3 * T - 2 * u)` over the transition band.
pub open spec fn spec_smooth_bulk(u: int) -> int {
    u * u * (3 * TRANSITION_NM - 2 * u)
}

/// Reflectance under a sensor a signed distance `d` nanometres from the
/// line centre: 0 over the line, 100 past the transition band, and a
/// smoothstep in between.
pub open spec fn spec_line_reflection(d: int) -> int {
    let a = abs(d) as int;
    if a <= LINE_HALF_NM {
        0
    } else if a >= LINE_HALF_NM + TRANSITION_NM {
        100
    } else {
        let u = a - LINE_HALF_NM;
        (100 * spec_smooth_bulk(u)) / (8_000_000_000_000_000_000_000 as int)
    }
}

/// The smoothstep bulk grows with the distance and peaks at one transition
/// cube.
proof fn lemma_smooth_bulk_props(u1: int, u2: int)
    requires
        0 <= u1 <= u2 <= TRANSITION_NM,
    ensures
        0 <= spec_smooth_bulk(u1) <= spec_smooth_bulk(u2),
        spec_smooth_bulk(u2) <= 8_000_000_000_000_000_000_000,
        spec_smooth_bulk(TRANSITION_NM as int) == 8_000_000_000_000_000_000_000,
{
    let t = TRANSITION_NM as int;
    let b1 = spec_smooth_bulk(u1);
    let b2 = spec_smooth_bulk(u2);
    let bt = spec_smooth_bulk(t);
    assert(b1 == u1 * u1 * (3 * t - 2 * u1));
    assert(b2 == u2 * u2 * (3 * t - 2 * u2));
    assert(bt == t * t * (3 * t - 2 * t));
    assert(b2 - b1 == (u2 - u1) * (3 * t * (u1 + u2) - 2 * (u1 * u1 + u1 * u2 + u2 * u2)))
        by (nonlinear_arith)
        requires
            b1 == u1 * u1 * (3 * t - 2 * u1),
            b2 == u2 * u2 * (3 * t - 2 * u2),
    ;
    assert((u2 - u1) * (3 * t * (u1 + u2) - 2 * (u1 * u1 + u1 * u2 + u2 * u2)) >= 0)
        by (nonlinear_arith)
        requires
            0 <= u1 <= u2 <= t,
    ;
    assert(b1 >= 0) by (nonlinear_arith)
        requires
            b1 == u1 * u1 * (3 * t - 2 * u1),
            0 <= u1 <= t,
    ;
    assert(t * t * t - b2 == (t - u2) * (t - u2) * (t + 2 * u2) && (t - u2) * (t - u2) * (t + 2
        * u2) >= 0) by (nonlinear_arith)
        requires
            b2 == u2 * u2 * (3 * t - 2 * u2),
            0 <= u2 <= t,
    ;
    assert(t * t * t == 8_000_000_000_000_000_000_000 && bt == t * t * t) by (nonlinear_arith)
        requires
            t == 20_000_000,
            bt == t * t * (3 * t - 2 * t),
    ;
}

/// Reflectance is even in the distance: the line looks the same from
/// either side.
pub proof fn lemma_reflection_even(d: int)
    ensures
        spec_line_reflection(d) == spec_line_reflection(-d),
{
}

/// Reflectance stays in `[0, 100]`, is exactly 0 over the line centre and
/// exactly 100 at the far edge of the transition band.
pub proof fn lemma_reflection_range(d: int)
    ensures
        0 <= spec_line_reflection(d) <= 100,
        abs(d) <= LINE_HALF_NM ==> spec_line_reflection(d) == 0,
        abs(d) >= LINE_HALF_NM + TRANSITION_NM ==> spec_line_reflection(d) == 100,
{
    let a = abs(d) as int;
    let full = 8_000_000_000_000_000_000_000 as int;
    if LINE_HALF_NM < a < LINE_HALF_NM + TRANSITION_NM {
        let u = a - LINE_HALF_NM;
        lemma_smooth_bulk_props(0, u);
        lemma_smooth_bulk_props(u, TRANSITION_NM as int);
        lemma_div_pos_is_pos(100 * spec_smooth_bulk(u), full);
        assert(100 * spec_smooth_bulk(u) <= full * 100) by (nonlinear_arith)
            requires
                spec_smooth_bulk(u) <= full,
        ;
        lemma_multiply_divide_le(100 * spec_smooth_bulk(u), full, 100);
    }
}

/// Reflectance never falls as the sensor moves away from the line: it is
/// non-decreasing in the unsigned distance.
pub proof fn lemma_reflection_monotone(d1: int, d2: int)
    requires
        0 <= d1 <= d2,
    ensures
        spec_line_reflection(d1) <= spec_line_reflection(d2),
{
    let full = 8_000_000_000_000_000_000_000 as int;
    lemma_reflection_range(d1);
    lemma_reflection_range(d2);
    if LINE_HALF_NM < d1 < LINE_HALF_NM + TRANSITION_NM && LINE_HALF_NM < d2 < LINE_HALF_NM
        + TRANSITION_NM {
        let u1 = d1 - LINE_HALF_NM;
        let u2 = d2 - LINE_HALF_NM;
        lemma_smooth_bulk_props(u1, u2);
        assert(100 * spec_smooth_bulk(u1) <= 100 * spec_smooth_bulk(u2));
        lemma_div_is_ordered(100 * spec_smooth_bulk(u1), 100 * spec_smooth_bulk(u2), full);
    }
}

/// Reflectance under a sensor a signed distance `d_nm` nanometres from the
/// line centre.
pub fn line_reflection(d_nm: i64) -> (r: u8)
    ensures
        r == spec_line_reflection(d_nm as int),
        0 <= r <= 100,
{
    proof {
        lemma_reflection_range(d_nm as int);
    }
    let a: i64 = if d_nm == i64::MIN {
        i64::MAX
    } else if d_nm < 0 {
        -d_nm
    } else {
        d_nm
    };
    proof {
        if d_nm == i64::MIN {
            assert(abs(d_nm as int) > LINE_HALF_NM + TRANSITION_NM);
        }
    }
    if a <= LINE_HALF_NM {
        0
    } else if a >= LINE_HALF_NM + TRANSITION_NM {
        100
    } else {
        let u: u128 = (a - LINE_HALF_NM) as u128;
        proof {
            let uu = u as int;
            lemma_smooth_bulk_props(uu, TRANSITION_NM as int);
            assert(spec_smooth_bulk(uu) == uu * uu * (3 * TRANSITION_NM - 2 * uu));
            assert(0 <= uu * uu <= 400_000_000_000_000i128 && 0 <= uu * uu * (3 * TRANSITION_NM
                - 2 * uu)) by (nonlinear_arith)
                requires
                    0 < uu < TRANSITION_NM,
                    TRANSITION_NM == 20_000_000i64,
            ;
        }
        let bulk: u128 = u * u * ((3 * TRANSITION_NM as u128) - 2 * u);
        proof {
            let uu = u as int;
            let full = 8_000_000_000_000_000_000_000 as int;
            lemma_div_pos_is_pos(100 * spec_smooth_bulk(uu), full);
            assert(100 * spec_smooth_bulk(uu) <= full * 100) by (nonlinear_arith)
                requires
                    spec_smooth_bulk(uu) <= full,
            ;
            lemma_multiply_divide_le(100 * spec_smooth_bulk(uu), full, 100);
        }
        let r128: u128 = (100 * bulk) / 8_000_000_000_000_000_000_000u128;
        r128 as u8
    }
}

/// A deterministic pseudo-random source: a 64-bit linear congruential
/// generator.  Every draw is a pure function of the seed, which is what
/// keeps a whole simulation reproducible.
#[derive(Clone, Copy, Debug, PartialEq, Eq, Structural)]
pub struct NormalRandom {
    pub state: u64,
}

/// The generator's state after one step.
pub open spec fn spec_rng_next(state: int) -> int {
    (state * 6_364_136_223_846_793_005 + 1_442_695_040_888_963_407) % 0x1_0000_0000_0000_0000
}

/// One noise draw in `[0, 600]`, read from the top bits of the state.
pub open spec fn spec_rng_draw(state: int) -> int {
    (spec_rng_next(state) / 0x2_0000_0000) % 601
}

/// The sum of `n` consecutive draws, and the state they leave behind.
pub open spec fn spec_rng_draws(state: int, n: nat) -> (int, int)
    decreases n,
{
    if n == 0 {
        (0, state)
    } else {
        let prev = spec_rng_draws(state, (n - 1) as nat);
        (prev.0 + spec_rng_draw(prev.1), spec_rng_next(prev.1))
    }
}

/// A value in `[0, 100]` with near-Gaussian noise of unit deviation added,
/// clamped back into range.  Twelve uniform draws approximate the bell
/// curve; their centred sum is scaled to a unit deviation.
pub open spec fn spec_noisy_value(value: int, state: int) -> int {
    let draws = spec_rng_draws(state, 12);
    let noise = (draws.0 - 3600) / 601;
    let sum = value + noise;
    if sum < 0 {
        0
    } else if sum > 100 {
        100
    } else {
        sum
    }
}

impl NormalRandom {
    /// A generator from a seed.
    pub fn new(seed: u64) -> (rng: NormalRandom)
        ensures
            rng.state == seed,
    {
        NormalRandom { state: seed }
    }

    /// One step of the generator, handing out a noise draw in `[0, 600]`.
    fn draw(&mut self) -> (d: u16)
        ensures
            final(self).state as int == spec_rng_next(old(self).state as int),
            d as int == spec_rng_draw(old(self).state as int),
    {
        let wide: u128 = (self.state as u128) * 6_364_136_223_846_793_005 + 1_442_695_040_888_963_407;
        let next: u64 = (wide % 0x1_0000_0000_0000_0000u128) as u64;
        self.state = next;
        ((next / 0x2_0000_0000u64) % 601) as u16
    }

    /// Adds near-Gaussian noise of unit deviation to a value in
    /// `[0, 100]` and clamps the result back into that range.
    pub fn noisy_value(&mut self, value: u8) -> (noisy: u8)
        requires
            value <= 100,
        ensures
            noisy as int == spec_noisy_value(value as int, old(self).state as int),
            final(self).state as int == spec_rng_draws(old(self).state as int, 12).1,
            noisy <= 100,
    {
        let ghost s0 = self.state as int;
        let mut sum: u32 = 0;
        let mut i: u8 = 0;
        while i < 12
            invariant
                i <= 12,
                sum as int == spec_rng_draws(s0, i as nat).0,
                self.state as int == spec_rng_draws(s0, i as nat).1,
                sum <= 600 * i as u32,
            decreases 12 - i,
        {
            let d = self.draw();
            sum = sum + d as u32;
            i = i + 1;
        }
        let centred: i32 = sum as i32 - 3600;
        let noise: i32 = if centred >= 0 {
            centred / 601
        } else {
            -((-centred) / 601) - if (-centred) % 601 == 0 {
                0
            } else {
                1
            }
        };
        proof {
            if centred < 0 {
                let m = (-centred) as int;
                vstd::arithmetic::div_mod::lemma_fundamental_div_mod(m, 601);
                vstd::arithmetic::div_mod::lemma_mod_bound(m, 601);
                if m % 601 == 0 {
                    vstd::arithmetic::div_mod::lemma_fundamental_div_mod_converse(
                        centred as int,
                        601,
                        -(m / 601),
                        0,
                    );
                } else {
                    vstd::arithmetic::div_mod::lemma_fundamental_div_mod_converse(
                        centred as int,
                        601,
                        -(m / 601) - 1,
                        601 - m % 601,
                    );
                }
            } else {
                lemma_div_pos_is_pos(centred as int, 601);
            }
        }
        let shifted: i32 = value as i32 + noise;
        if shifted < 0 {
            0
        } else if shifted > 100 {
            100
        } else {
            shifted as u8
        }
    }
}

/// What a line sensor sees where its ray hit a track segment: the
/// reflectance at the hit point's signed distance from the painted line,
/// in the segment's local frame.
pub fn intersection_to_sensor_value(
    segment: crate::track::TrackSegment,
    local_x_nm: i64,
    local_y_nm: i64,
) -> (value: u8)
    requires
        segment.spec_valid(),
        -crate::track::LOCAL_POINT_LIMIT_NM <= local_x_nm <= crate::track::LOCAL_POINT_LIMIT_NM,
        -crate::track::LOCAL_POINT_LIMIT_NM <= local_y_nm <= crate::track::LOCAL_POINT_LIMIT_NM,
    ensures
        value == spec_line_reflection(
            crate::track::spec_line_distance(segment, local_x_nm as int, local_y_nm as int),
        ),
        value <= 100,
{
    let d = crate::track::line_distance(segment, local_x_nm, local_y_nm);
    line_reflection(d)
}

/// The reflectance a line sensor reports for a hit a signed distance
/// `d_nm` from the line centre: the ideal reflectance with sensor noise.
pub fn sensor_reading(d_nm: i64, rng: &mut NormalRandom) -> (value: u8)
    ensures
        value as int == spec_noisy_value(
            spec_line_reflection(d_nm as int),
            old(rng).state as int,
        ),
        final(rng).state as int == spec_rng_draws(old(rng).state as int, 12).1,
        value <= 100,
{
    let ideal = line_reflection(d_nm);
    rng.noisy_value(ideal)
}

} // verus!
