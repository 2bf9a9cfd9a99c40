use botsim::motors::{
    motor_angle, pwm_to_torque, Motors, Wheel, NO_LOAD_OMEGA_URAD, PWM_MAX, PWM_MIN,
};
use botsim::track::Side;

#[test]
fn zero_pwm_gives_zero_torque_at_any_speed() {
    for ang_vel in [0i64, 1, -1, 1_000_000, -4_000_000_000, i64::MAX, i64::MIN + 1] {
        assert_eq!(pwm_to_torque(0, ang_vel, 7, 3), 0);
        assert_eq!(pwm_to_torque(0, ang_vel, 1, 1), 0);
    }
}

#[test]
fn full_pwm_at_no_load_speed_gives_zero_torque() {
    // With a unit gearbox the wheel reaches the motor's no-load speed
    // exactly at NO_LOAD_OMEGA_URAD.
    assert_eq!(pwm_to_torque(PWM_MAX, NO_LOAD_OMEGA_URAD, 1, 1), 0);
    assert_eq!(pwm_to_torque(PWM_MIN, NO_LOAD_OMEGA_URAD, 1, 1), 0);
    assert_eq!(pwm_to_torque(PWM_MAX, -NO_LOAD_OMEGA_URAD, 1, 1), 0);
    // Past the no-load speed the torque stays zero.
    assert_eq!(pwm_to_torque(PWM_MAX, NO_LOAD_OMEGA_URAD + 1, 1, 1), 0);
    // The wheel no-load speed scales with the gear ratio num / den.
    assert_eq!(pwm_to_torque(PWM_MAX, 2 * NO_LOAD_OMEGA_URAD, 2, 1), 0);
    assert_eq!(pwm_to_torque(PWM_MAX, NO_LOAD_OMEGA_URAD / 2 + 1, 1, 2), 0);
}

#[test]
fn torque_is_linear_in_pwm_at_stall() {
    // Slope STALL_TORQUE / PWM_MAX = 1000 nano-newton-metres per unit.
    assert_eq!(pwm_to_torque(1, 0, 1, 1), 1000);
    assert_eq!(pwm_to_torque(10, 0, 1, 1), 10_000);
    assert_eq!(pwm_to_torque(500, 0, 1, 1), 500_000);
    assert_eq!(pwm_to_torque(1000, 0, 1, 1), 1_000_000);
    assert_eq!(pwm_to_torque(-1, 0, 1, 1), -1000);
    assert_eq!(pwm_to_torque(-750, 0, 1, 1), -750_000);
    // Out-of-range PWM saturates first.
    assert_eq!(pwm_to_torque(5000, 0, 1, 1), 1_000_000);
    assert_eq!(pwm_to_torque(-5000, 0, 1, 1), -1_000_000);
}

#[test]
fn stall_torque_scales_with_gearbox() {
    // A gearbox of 20 motor turns per wheel turn divides the wheel torque
    // in this model's convention (torque referred through the ratio).
    assert_eq!(pwm_to_torque(1000, 0, 20, 1), 1_000_000 / 20);
    // A zero denominator means a unit ratio.
    assert_eq!(pwm_to_torque(1000, 0, 7, 0), 1_000_000);
    // A zero numerator transmits nothing.
    assert_eq!(pwm_to_torque(1000, 0, 0, 5), 0);
}

#[test]
fn torque_falls_with_speed() {
    let stall = pwm_to_torque(1000, 0, 1, 1);
    let slow = pwm_to_torque(1000, NO_LOAD_OMEGA_URAD / 4, 1, 1);
    let fast = pwm_to_torque(1000, NO_LOAD_OMEGA_URAD / 2, 1, 1);
    assert!(stall > slow);
    assert!(slow > fast);
    assert!(fast > 0);
}

#[test]
fn motors_component_reports_same_torque() {
    let motors = Motors::new(4, 2);
    assert_eq!(motors.torque(800, 123_456), pwm_to_torque(800, 123_456, 4, 2));
}

#[test]
fn encoder_wraps_motor_angle_to_sixteen_bits() {
    assert_eq!(motor_angle(0, 1, 1), 0);
    assert_eq!(motor_angle(1000, 2, 1), 2000);
    assert_eq!(motor_angle(0x10000 + 5, 1, 1), 5);
    // Negative cumulative angles wrap from the top.
    assert_eq!(motor_angle(-1, 1, 1), 0xFFFF);
    // The gearbox scales the wheel angle into the motor frame.
    assert_eq!(motor_angle(9, 1, 2), 4);
    // A zero denominator means a unit ratio.
    assert_eq!(motor_angle(42, 9, 0), 42);
}

#[test]
fn wheel_carries_axle_and_side() {
    let w = Wheel::new(1, 0, 0, Side::Left);
    assert_eq!(w.axle_x_nm, 1);
    assert_eq!(w.side, Side::Left);
    assert_eq!(Side::Left.sign(), 1);
    assert_eq!(Side::Right.sign(), -1);
    assert_eq!(Side::Left.opposite(), Side::Right);
}
