//! The capability through which the host advances the simulation: a fixed
//! physics step, motor writes, sensor sampling and pose queries.
//!
//! Every implementation publishes an abstract state, `StepperModel`, and the
//! function its physics step applies to that state.  The host's own contracts
//! are stated over that model, so whatever proofs hold of the host hold for
//! any stepper whose implementation meets this interface.

use vstd::prelude::*;

verus! {

use crate::exec_data::Pose;
use crate::sensors::{
    pack_sensor_values,
    spec_range_valid,
    spec_sensor_bytes,
    SensorIndexRange,
    SensorKind,
    SensorsData,
};
use crate::track::Side;

/// The pose at the world origin, unrotated.
pub open spec fn spec_identity_pose() -> Pose {
    Pose { x_nm: 0, y_nm: 0, z_nm: 0, pitch_udeg: 0, roll_udeg: 0, yaw_udeg: 0 }
}

/// The abstract state of a simulation stepper that the host can observe:
/// the sensor snapshot, the poses of the body and the wheels, and the motor
/// command in force.
pub ghost struct StepperModel {
    pub sensors: SensorsData,
    pub body: Pose,
    pub left_wheel: Pose,
    pub right_wheel: Pose,
    pub motors: (i16, i16),
}

impl StepperModel {
    /// The same state with another motor command.
    pub open spec fn with_motors(self, left: i16, right: i16) -> StepperModel {
        StepperModel {
            sensors: self.sensors,
            body: self.body,
            left_wheel: self.left_wheel,
            right_wheel: self.right_wheel,
            motors: (left, right),
        }
    }
}

/// A fixed-step simulation the host can drive: physics advances only through
/// `step_once`, sensors are sampled between steps, and motor commands take
/// effect on the steps that follow them.
pub trait SimulationStepper: Sized {
    /// The stepper's abstract state.
    spec fn model(&self) -> StepperModel;

    /// What one fixed step of `dt_us` microseconds does to the abstract
    /// state.  Each implementation chooses this function; that it is a
    /// function is what makes a run reproducible.
    spec fn spec_step(m: StepperModel, dt_us: u32) -> StepperModel;

    /// Advances the simulation by one fixed step of `dt_us` microseconds.
    fn step_once(&mut self, dt_us: u32)
        ensures
            final(self).model() == Self::spec_step(old(self).model(), dt_us),
    ;

    /// Stores the motor command; it acts on the steps that follow.
    fn set_motors(&mut self, left: i16, right: i16)
        ensures
            final(self).model() == old(self).model().with_motors(left, right),
    ;

    /// Samples the current sensor values, packed as on the wire.
    fn sample_sensors(&mut self, kind: SensorKind, range: SensorIndexRange) -> (bytes: Vec<u8>)
        requires
            spec_range_valid(kind, range),
        ensures
            final(self).model() == old(self).model(),
            bytes@ == spec_sensor_bytes(
                old(self).model().sensors,
                kind,
                range.start as int,
                range.count as nat,
            ),
    ;

    /// The full current sensor snapshot, for the trace record.
    fn sensors_snapshot(&self) -> (d: SensorsData)
        ensures
            d == self.model().sensors,
    ;

    /// The current pose of the robot body.
    fn body_pose(&self) -> (p: Pose)
        ensures
            p == self.model().body,
    ;

    /// The current pose of one wheel.
    fn wheel_pose(&self, side: Side) -> (p: Pose)
        ensures
            p == (match side {
                Side::Left => self.model().left_wheel,
                Side::Right => self.model().right_wheel,
            }),
    ;

    /// The motor command currently in force.
    fn motors(&self) -> (m: (i16, i16))
        ensures
            m == self.model().motors,
    ;
}

/// A stepper over a still world: sensors and poses hold whatever was set
/// into them and a physics step changes nothing.  It backs host tests, where
/// what matters is that every observation is deterministic.
pub struct MockStepper {
    /// Microseconds stepped so far: a monotonic clock of the mock world.
    pub elapsed_us: u64,
    pub sensors: SensorsData,
    pub body: Pose,
    pub left_wheel: Pose,
    pub right_wheel: Pose,
    pub motors: (i16, i16),
}

impl MockStepper {
    /// A mock world with quiet sensors and everything at the origin.
    pub fn new() -> (s: MockStepper)
        ensures
            s.model().sensors.line@ =~= Seq::new(16, |i: int| 100u8),
            s.model().sensors.gyro == (0i16, 0i16, 0i16),
            s.model().sensors.imu_fused == (0i16, 0i16, 0i16),
            s.model().sensors.motor_angles == (0u16, 0u16),
            s.model().sensors.enabled == true,
            s.model().sensors.bot_position == crate::sensors::BotPosition::OnTrack,
            s.model().body == spec_identity_pose(),
            s.model().left_wheel == spec_identity_pose(),
            s.model().right_wheel == spec_identity_pose(),
            s.model().motors == (0i16, 0i16),
            s.elapsed_us == 0,
    {
        MockStepper {
            elapsed_us: 0,
            sensors: SensorsData::initial(),
            body: Pose::identity(),
            left_wheel: Pose::identity(),
            right_wheel: Pose::identity(),
            motors: (0, 0),
        }
    }

    /// Replaces the sensor snapshot the mock world reports.
    pub fn set_sensors(&mut self, sensors: SensorsData)
        ensures
            final(self).model() == (StepperModel {
                sensors,
                ..old(self).model()
            }),
            final(self).elapsed_us == old(self).elapsed_us,
    {
        self.sensors = sensors;
    }

    /// Replaces the body pose the mock world reports.
    pub fn set_body_pose(&mut self, body: Pose)
        ensures
            final(self).model() == (StepperModel { body, ..old(self).model() }),
            final(self).elapsed_us == old(self).elapsed_us,
    {
        self.body = body;
    }
}

impl SimulationStepper for MockStepper {
    open spec fn model(&self) -> StepperModel {
        StepperModel {
            sensors: self.sensors,
            body: self.body,
            left_wheel: self.left_wheel,
            right_wheel: self.right_wheel,
            motors: self.motors,
        }
    }

    /// The mock world is still: a step leaves the state as it is.
    open spec fn spec_step(m: StepperModel, dt_us: u32) -> StepperModel {
        m
    }

    fn step_once(&mut self, dt_us: u32) {
        if self.elapsed_us <= u64::MAX - dt_us as u64 {
            self.elapsed_us = self.elapsed_us + dt_us as u64;
        }
    }

    fn set_motors(&mut self, left: i16, right: i16) {
        self.motors = (left, right);
    }

    fn sample_sensors(&mut self, kind: SensorKind, range: SensorIndexRange) -> (bytes: Vec<u8>) {
        pack_sensor_values(&self.sensors, kind, range)
    }

    fn sensors_snapshot(&self) -> (d: SensorsData) {
        self.sensors
    }

    fn body_pose(&self) -> (p: Pose) {
        self.body
    }

    fn wheel_pose(&self, side: Side) -> (p: Pose) {
        match side {
            Side::Left => self.left_wheel,
            Side::Right => self.right_wheel,
        }
    }

    fn motors(&self) -> (m: (i16, i16)) {
        self.motors
    }
}

} // verus!
