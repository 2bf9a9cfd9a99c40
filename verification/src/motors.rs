//! DC motor model: PWM duty cycle to wheel torque, and the shaft encoders.
//!
//! All quantities are integers: PWM in signed duty-cycle units, angular
//! velocity in micro-radians per second, torque in nano-newton-metres.
//! The transfer function is the usual brushed-motor approximation: torque is
//! proportional to the drive and falls linearly with motor speed, reaching
//! zero at the no-load speed of the current drive.

use vstd::prelude::*;

verus! {

use vstd::math::abs;

/// Largest admissible PWM duty cycle.
pub const PWM_MAX: i16 = 1000;

/// Smallest admissible PWM duty cycle.
pub const PWM_MIN: i16 = -1000;

/// Stall torque of one motor at full drive, in nano-newton-metres (0.001 N*m).
pub const STALL_TORQUE_NNM: i64 = 1_000_000;

/// No-load motor speed at full drive, in micro-radians per second
/// (40000 rpm, that is 40000 * 2 * pi / 60 rad/s).
pub const NO_LOAD_OMEGA_URAD: i64 = 4_188_790_205;

/// A PWM value pulled back into `[PWM_MIN, PWM_MAX]`.
pub open spec fn spec_clamp_pwm(pwm: int) -> int {
    if pwm < PWM_MIN as int {
        PWM_MIN as int
    } else if pwm > PWM_MAX as int {
        PWM_MAX as int
    } else {
        pwm
    }
}

/// Magnitude of the wheel torque in nano-newton-metres, for a drive
/// `d` in `[0, 1000]`, a wheel speed magnitude `a` in micro-radians per
/// second, and a gear ratio `num / den` (motor turns per wheel turn).
///
/// In real terms this is
/// `STALL_TORQUE * (d / PWM_MAX) * max(0, 1 - omega_motor / omega_noload) * den / num`
/// with `omega_motor = a * den / num` and
/// `omega_noload = NO_LOAD_OMEGA * d / PWM_MAX`, collected over a single
/// division so that the integer result is exact up to one final rounding.
pub open spec fn spec_torque_magnitude_nnm(d: int, a: int, num: int, den: int) -> int {
    let surplus = NO_LOAD_OMEGA_URAD * d * num - 1000 * a * den;
    if d <= 0 || num <= 0 || surplus <= 0 {
        0
    } else {
        (1000 * den * surplus) / (num * num * NO_LOAD_OMEGA_URAD)
    }
}

/// The full transfer function, as a function of the raw signed inputs.
/// A zero gear denominator is read as a ratio of one, as the configuration
/// parser does; a zero numerator transmits no torque.
pub open spec fn spec_pwm_to_torque(pwm: int, ang_vel: int, num: int, den: int) -> int {
    let p = spec_clamp_pwm(pwm);
    let n = if den == 0 { 1 } else { num };
    let q = if den == 0 { 1 } else { den };
    let m = spec_torque_magnitude_nnm(abs(p) as int, abs(ang_vel) as int, n, q);
    if p >= 0 {
        m
    } else {
        -m
    }
}

proof fn lemma_torque_magnitude_bounds(d: int, a: int, num: int, den: int)
    requires
        0 <= d <= 1000,
        0 <= a,
        0 <= num,
        0 <= den,
    ensures
        0 <= spec_torque_magnitude_nnm(d, a, num, den) <= 1_000_000 * den,
{
    let surplus = NO_LOAD_OMEGA_URAD * d * num - 1000 * a * den;
    if d <= 0 || num <= 0 || surplus <= 0 {
    } else {
        let numer = 1000 * den * surplus;
        let denom = num * num * NO_LOAD_OMEGA_URAD;
        assert(numer >= 0 && denom > 0 && numer <= denom * (1_000_000 * den))
            by (nonlinear_arith)
            requires
                surplus == NO_LOAD_OMEGA_URAD * d * num - 1000 * a * den,
                surplus > 0,
                0 <= d <= 1000,
                0 <= a,
                num > 0,
                den >= 0,
                numer == 1000 * den * surplus,
                denom == num * num * NO_LOAD_OMEGA_URAD,
        ;
        vstd::arithmetic::div_mod::lemma_div_pos_is_pos(numer, denom);
        vstd::arithmetic::div_mod::lemma_multiply_divide_le(numer, denom, 1_000_000 * den);
    }
}

/// Wheel torque, in nano-newton-metres, produced by one motor driven at
/// `pwm` while its wheel turns at `ang_vel_urad` micro-radians per second,
/// through a gearbox of `gear_ratio_num / gear_ratio_den` motor turns per
/// wheel turn.
#[verifier::rlimit(50)]
pub fn pwm_to_torque(pwm: i16, ang_vel_urad: i64, gear_ratio_num: u32, gear_ratio_den: u32) -> (t:
    i64)
    ensures
        t == spec_pwm_to_torque(
            pwm as int,
            ang_vel_urad as int,
            gear_ratio_num as int,
            gear_ratio_den as int,
        ),
{
    // Saturate the PWM and read off drive and sign.
    let p: i16 = if pwm < PWM_MIN {
        PWM_MIN
    } else if pwm > PWM_MAX {
        PWM_MAX
    } else {
        pwm
    };
    let drive: i64 = if p < 0 {
        -(p as i64)
    } else {
        p as i64
    };

    // A zero denominator stands for a unit gear ratio.
    let (num, den): (u32, u32) = if gear_ratio_den == 0 {
        (1, 1)
    } else {
        (gear_ratio_num, gear_ratio_den)
    };

    let wide_vel: i128 = ang_vel_urad as i128;
    let speed: i128 = if wide_vel < 0 {
        -wide_vel
    } else {
        wide_vel
    };
    assert(speed as int == abs(ang_vel_urad as int));

    if drive == 0 || num == 0 {
        return 0;
    }

    // Torque surplus over the no-load point, in mixed units; zero or
    // negative means the motor has reached (or passed) its no-load speed.
    proof {
        // 2^74 bounds the no-load side, 2^106 the braking side; both are far
        // inside the i128 range.
        assert(0 <= (NO_LOAD_OMEGA_URAD as int) * (drive as int) * (num as int)
            < 0x4_0000_0000_0000_0000_0000i128) by (nonlinear_arith)
            requires
                1 <= drive <= 1000,
                1 <= num < 0x1_0000_0000,
        ;
        assert(0 <= 1000 * (speed as int) * (den as int)
            < 0x4_0000_0000_0000_0000_0000_0000_0000i128) by (nonlinear_arith)
            requires
                0 <= speed <= 0x8000_0000_0000_0000i128,
                0 <= den < 0x1_0000_0000,
        ;
    }
    let full: i128 = (NO_LOAD_OMEGA_URAD as i128) * (drive as i128) * (num as i128);
    let braking: i128 = 1000i128 * speed * (den as i128);
    let surplus: i128 = full - braking;
    if surplus <= 0 {
        return 0;
    }

    proof {
        assert(0 < 1000 * (den as int) * (surplus as int)
            <= 0x7fff_ffff_ffff_ffff_ffff_ffff_ffff_ffffi128) by (nonlinear_arith)
            requires
                1 <= den < 0x1_0000_0000,
                0 < surplus < 0x4_0000_0000_0000_0000_0000i128,
        ;
        assert(0 < (num as int) * (num as int) * (NO_LOAD_OMEGA_URAD as int)
            <= 0x7fff_ffff_ffff_ffff_ffff_ffff_ffff_ffffi128) by (nonlinear_arith)
            requires
                1 <= num < 0x1_0000_0000,
        ;
        lemma_torque_magnitude_bounds(drive as int, speed as int, num as int, den as int);
    }
    let numer: u128 = (1000i128 * (den as i128) * surplus) as u128;
    let denom: u128 = ((num as i128) * (num as i128) * (NO_LOAD_OMEGA_URAD as i128)) as u128;
    let magnitude: i64 = (numer / denom) as i64;

    if p >= 0 {
        magnitude
    } else {
        -magnitude
    }
}

/// The encoder reading behind a wheel angle: the cumulative shaft angle in
/// the motor frame, `wheel_angle * num / den` rounded down, wrapped to 16
/// bits.
pub open spec fn spec_motor_angle(wheel_angle_mrad: int, num: int, den: int) -> int {
    let n = if den == 0 {
        1
    } else {
        num
    };
    let q = if den == 0 {
        1
    } else {
        den
    };
    ((wheel_angle_mrad * n) / q) % 0x10000
}

/// The encoder reading for a cumulative wheel angle in milliradians,
/// through a gearbox of `num / den` motor turns per wheel turn.
pub fn motor_angle(wheel_angle_mrad: i64, gear_ratio_num: u32, gear_ratio_den: u32) -> (counts:
    u16)
    requires
        -1_000_000_000_000 <= wheel_angle_mrad <= 1_000_000_000_000,
    ensures
        counts as int == spec_motor_angle(
            wheel_angle_mrad as int,
            gear_ratio_num as int,
            gear_ratio_den as int,
        ),
{
    let (num, den): (u32, u32) = if gear_ratio_den == 0 {
        (1, 1)
    } else {
        (gear_ratio_num, gear_ratio_den)
    };
    proof {
        assert(-0x1_0000_0000_0000_0000_0000i128 < (wheel_angle_mrad as int) * (num as int)
            < 0x1_0000_0000_0000_0000_0000i128) by (nonlinear_arith)
            requires
                -1_000_000_000_000 <= wheel_angle_mrad <= 1_000_000_000_000,
                0 <= num < 0x1_0000_0000,
        ;
    }
    let prod: i128 = (wheel_angle_mrad as i128) * (num as i128);
    let motor_mrad: i128 = floor_div_i128(prod, den as i128);
    let wrapped: i128 = euclid_mod_i128(motor_mrad, 0x10000);
    wrapped as u16
}

/// Euclidean (floor) division by a positive divisor.
pub(crate) fn floor_div_i128(a: i128, d: i128) -> (q: i128)
    requires
        d > 0,
        -0x1_0000_0000_0000_0000_0000_0000_0000i128 < a
            < 0x1_0000_0000_0000_0000_0000_0000_0000i128,
    ensures
        q as int == a as int / d as int,
        a >= 0 ==> 0 <= q <= a,
        a < 0 ==> a <= q <= 0,
{
    if a >= 0 {
        let q = ((a as u128) / (d as u128)) as i128;
        proof {
            vstd::arithmetic::div_mod::lemma_div_pos_is_pos(a as int, d as int);
            vstd::arithmetic::div_mod::lemma_div_nonincreasing(a as int, d as int);
        }
        q
    } else {
        let m = (-a) as u128;
        let du = d as u128;
        let qm = m / du;
        let r = m % du;
        proof {
            vstd::arithmetic::div_mod::lemma_fundamental_div_mod(m as int, du as int);
            vstd::arithmetic::div_mod::lemma_mod_bound(m as int, du as int);
            vstd::arithmetic::div_mod::lemma_div_pos_is_pos(m as int, du as int);
            vstd::arithmetic::div_mod::lemma_div_nonincreasing(m as int, du as int);
            if m % du != 0 {
                assert(qm as int <= m as int - 1) by (nonlinear_arith)
                    requires
                        m as int == (du as int) * (qm as int) + (m as int % du as int),
                        1 <= m as int % du as int,
                        qm >= 0,
                        du >= 1,
                ;
            }
        }
        if r == 0 {
            let q = -(qm as i128);
            proof {
                assert(a as int == (q as int) * (d as int) + 0) by (nonlinear_arith)
                    requires
                        m as int == (du as int) * (qm as int) + (r as int),
                        r == 0,
                        a as int == -(m as int),
                        q as int == -(qm as int),
                        d as int == du as int,
                ;
                vstd::arithmetic::div_mod::lemma_fundamental_div_mod_converse(
                    a as int,
                    d as int,
                    q as int,
                    0,
                );
            }
            q
        } else {
            let q = -(qm as i128) - 1;
            proof {
                assert(a as int == (q as int) * (d as int) + (d as int - r as int))
                    by (nonlinear_arith)
                    requires
                        m as int == (du as int) * (qm as int) + (r as int),
                        a as int == -(m as int),
                        q as int == -(qm as int) - 1,
                        d as int == du as int,
                ;
                vstd::arithmetic::div_mod::lemma_fundamental_div_mod_converse(
                    a as int,
                    d as int,
                    q as int,
                    d as int - r as int,
                );
            }
            q
        }
    }
}

/// Euclidean remainder by a positive divisor: always in `[0, d)`.
fn euclid_mod_i128(a: i128, d: i128) -> (r: i128)
    requires
        0 < d <= 0x1_0000_0000i128,
        -0x1_0000_0000_0000_0000_0000_0000_0000i128 < a
            < 0x1_0000_0000_0000_0000_0000_0000_0000i128,
    ensures
        r as int == a as int % d as int,
        0 <= r < d,
{
    let q = floor_div_i128(a, d);
    proof {
        vstd::arithmetic::div_mod::lemma_fundamental_div_mod(a as int, d as int);
        vstd::arithmetic::div_mod::lemma_mod_bound(a as int, d as int);
        assert((a as int) - (a as int / d as int) * (d as int) == a as int % d as int);
        assert(q * d == (a as int / d as int) * (d as int)) by (nonlinear_arith)
            requires
                q == a as int / d as int,
        ;
    }
    a - q * d
}

/// One wheel of the robot: its axle direction in the body frame, in
/// nanometre units, and its side.
#[derive(Clone, Copy, Debug, PartialEq, Eq, Structural)]
pub struct Wheel {
    pub axle_x_nm: i64,
    pub axle_y_nm: i64,
    pub axle_z_nm: i64,
    pub side: crate::track::Side,
}

impl Wheel {
    /// A wheel on the given axle and side.
    pub fn new(axle_x_nm: i64, axle_y_nm: i64, axle_z_nm: i64, side: crate::track::Side) -> (w:
        Wheel)
        ensures
            w.axle_x_nm == axle_x_nm,
            w.axle_y_nm == axle_y_nm,
            w.axle_z_nm == axle_z_nm,
            w.side == side,
    {
        Wheel { axle_x_nm, axle_y_nm, axle_z_nm, side }
    }
}

/// The motor pair's gearbox.
#[derive(Clone, Copy, Debug, PartialEq, Eq, Structural)]
pub struct Motors {
    pub gear_ratio_num: u32,
    pub gear_ratio_den: u32,
}

impl Motors {
    /// A gearbox of `num / den` motor turns per wheel turn.
    pub fn new(gear_ratio_num: u32, gear_ratio_den: u32) -> (m: Motors)
        ensures
            m.gear_ratio_num == gear_ratio_num,
            m.gear_ratio_den == gear_ratio_den,
    {
        Motors { gear_ratio_num, gear_ratio_den }
    }

    /// The wheel torque this gearbox delivers for a PWM drive and wheel
    /// speed.
    pub fn torque(&self, pwm: i16, ang_vel_urad: i64) -> (t: i64)
        ensures
            t == spec_pwm_to_torque(
                pwm as int,
                ang_vel_urad as int,
                self.gear_ratio_num as int,
                self.gear_ratio_den as int,
            ),
    {
        pwm_to_torque(pwm, ang_vel_urad, self.gear_ratio_num, self.gear_ratio_den)
    }
}

/// `pwm_to_torque` is silent at zero drive: whatever the wheel speed and
/// the gearbox, a zero PWM produces no torque.
pub proof fn lemma_motor_zero_drive(ang_vel: int, num: int, den: int)
    ensures
        spec_pwm_to_torque(0, ang_vel, num, den) == 0,
{
}

/// `pwm_to_torque` is silent at the no-load point: at full drive in either
/// direction, a wheel speed at or beyond the no-load speed of the motor
/// (scaled through the gearbox) produces no torque.
pub proof fn lemma_motor_zero_at_no_load(pwm: int, ang_vel: int, num: int, den: int)
    requires
        pwm == PWM_MAX as int || pwm == PWM_MIN as int,
        den >= 1,
        abs(ang_vel) * den >= NO_LOAD_OMEGA_URAD * num,
    ensures
        spec_pwm_to_torque(pwm, ang_vel, num, den) == 0,
{
    let a = abs(ang_vel);
    assert(NO_LOAD_OMEGA_URAD * 1000 * num - 1000 * a * den <= 0) by (nonlinear_arith)
        requires
            a * den >= NO_LOAD_OMEGA_URAD * num,
    ;
}

/// At stall (standstill wheel) with a unit gearbox, the torque is exactly
/// linear in the clamped PWM, with slope `STALL_TORQUE_NNM / PWM_MAX`
/// nano-newton-metres per duty-cycle unit.
pub proof fn lemma_motor_linear_at_stall(pwm: int)
    ensures
        spec_pwm_to_torque(pwm, 0, 1, 1) == (STALL_TORQUE_NNM as int / PWM_MAX as int)
            * spec_clamp_pwm(pwm),
{
    let p = spec_clamp_pwm(pwm);
    let d = abs(p) as int;
    if d > 0 {
        let surplus = NO_LOAD_OMEGA_URAD * d * 1 - 1000 * 0 * 1;
        assert(surplus == NO_LOAD_OMEGA_URAD * d);
        assert(1000 * 1 * surplus == (NO_LOAD_OMEGA_URAD as int) * (1000 * d)) by (nonlinear_arith)
            requires
                surplus == NO_LOAD_OMEGA_URAD * d,
        ;
        assert(1 * 1 * (NO_LOAD_OMEGA_URAD as int) == NO_LOAD_OMEGA_URAD as int);
        vstd::arithmetic::div_mod::lemma_div_multiples_vanish(
            1000 * d,
            NO_LOAD_OMEGA_URAD as int,
        );
        assert(spec_torque_magnitude_nnm(d, 0, 1, 1) == 1000 * d);
    }
}

} // verus!
