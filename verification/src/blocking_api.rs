//! The typed operations a robot program works with, over the raw ABI: each
//! one issues a device operation against the host and decodes the wire bytes
//! back into values.

use vstd::prelude::*;

verus! {

use crate::exec_data::{CsvColumn, FileArtifact};
use crate::host::BotHost;
use crate::sensors::{
    lemma_sensor_bytes_index,
    lemma_sensor_bytes_len,
    SensorIndexRange,
    SensorKind,
};
use crate::stepper::SimulationStepper;
use vstd::slice::slice_to_vec;
use vstd::string::StringSliceAdditionalSpecFns;

/// The signed 16-bit value behind a two's-complement wire image.
pub open spec fn spec_wire_signed(v: int) -> int {
    if v < 0x8000 {
        v
    } else {
        v - 0x10000
    }
}

/// A wire value read back as the signed 16-bit quantity it encodes.
fn wire_to_i16(w: u16) -> (v: i16)
    ensures
        v as int == spec_wire_signed(w as int),
{
    if w < 0x8000 {
        w as i16
    } else {
        let d: i32 = w as i32 - 0x10000;
        d as i16
    }
}

/// Get the current values of all line sensors.
pub fn get_line_sensors<S: SimulationStepper>(host: &mut BotHost<S>) -> (values: [u8; 16])
    requires
        old(host).wf(),
    ensures
        final(host).wf(),
        final(host).model() == old(host).model(),
        values@ =~= old(host).model().stepper.sensors.line@,
{
    let ghost sensors = host.model().stepper.sensors;
    let r = host.read_sensor_blocking(
        SensorKind::Line,
        SensorIndexRange { start: 0, count: 16 },
    );
    let bytes = match r {
        Result::Ok(bytes) => bytes,
        Result::Err(_) => unreached(),
    };
    proof {
        lemma_sensor_bytes_len(sensors, SensorKind::Line, 0, 16);
    }
    let mut values: [u8; 16] = [0; 16];
    let mut i: usize = 0;
    while i < 16
        invariant
            i <= 16,
            bytes@.len() == 16,
            bytes@ == crate::sensors::spec_sensor_bytes(sensors, SensorKind::Line, 0, 16),
            forall|j: int| 0 <= j < i ==> values@[j] == sensors.line@[j],
        decreases 16 - i,
    {
        proof {
            lemma_sensor_bytes_index(sensors, SensorKind::Line, 0, 16, i as int);
        }
        values[i] = bytes[i];
        i = i + 1;
    }
    values
}

/// Decodes the two bytes of wire value `j` from a width-two stream.
fn read_wire_u16(bytes: &Vec<u8>, j: usize) -> (w: u16)
    requires
        2 * j + 1 < bytes@.len(),
    ensures
        w as int == bytes@[2 * j] + 256 * bytes@[2 * j + 1],
{
    let n = bytes.len();
    let lo = bytes[2 * j];
    let hi = bytes[2 * j + 1];
    lo as u16 + 256 * (hi as u16)
}

/// A value below 65536 survives its trip through two wire bytes.
proof fn lemma_wire_u16_round_trip(v: int)
    requires
        0 <= v < 0x10000,
    ensures
        (v % 256) + 256 * ((v / 256) % 256) == v,
{
    vstd::arithmetic::div_mod::lemma_fundamental_div_mod(v, 256);
    assert(v / 256 < 256) by {
        if v / 256 >= 256 {
            vstd::arithmetic::div_mod::lemma_div_multiples_vanish(256, 256);
            vstd::arithmetic::div_mod::lemma_div_is_ordered(256int * 256, v, 256);
            assert(false);
        }
    }
    vstd::arithmetic::div_mod::lemma_div_pos_is_pos(v, 256);
    vstd::arithmetic::div_mod::lemma_small_mod((v / 256) as nat, 256);
}

/// Get the current values of motor angles (returns left and right angles
/// with 16 bits of precision).
pub fn get_motor_angles<S: SimulationStepper>(host: &mut BotHost<S>) -> (angles: (u16, u16))
    requires
        old(host).wf(),
    ensures
        final(host).wf(),
        final(host).model() == old(host).model(),
        angles == old(host).model().stepper.sensors.motor_angles,
{
    let ghost sensors = host.model().stepper.sensors;
    let r = host.read_sensor_blocking(
        SensorKind::MotorAngles,
        SensorIndexRange { start: 0, count: 2 },
    );
    let bytes = match r {
        Result::Ok(bytes) => bytes,
        Result::Err(_) => unreached(),
    };
    proof {
        lemma_sensor_bytes_len(sensors, SensorKind::MotorAngles, 0, 2);
        lemma_sensor_bytes_index(sensors, SensorKind::MotorAngles, 0, 2, 0);
        lemma_sensor_bytes_index(sensors, SensorKind::MotorAngles, 0, 2, 1);
        lemma_wire_u16_round_trip(sensors.motor_angles.0 as int);
        lemma_wire_u16_round_trip(sensors.motor_angles.1 as int);
    }
    let left = read_wire_u16(&bytes, 0);
    let right = read_wire_u16(&bytes, 1);
    (left, right)
}

/// Reads one signed three-axis sensor (the gyro or the fused IMU angles).
fn read_triple<S: SimulationStepper>(host: &mut BotHost<S>, kind: SensorKind) -> (t: (
    i16,
    i16,
    i16,
))
    requires
        old(host).wf(),
        kind == SensorKind::Gyro || kind == SensorKind::ImuFused,
    ensures
        final(host).wf(),
        final(host).model() == old(host).model(),
        t == (if kind == SensorKind::Gyro {
            old(host).model().stepper.sensors.gyro
        } else {
            old(host).model().stepper.sensors.imu_fused
        }),
{
    let ghost sensors = host.model().stepper.sensors;
    let r = host.read_sensor_blocking(kind, SensorIndexRange { start: 0, count: 3 });
    let bytes = match r {
        Result::Ok(bytes) => bytes,
        Result::Err(_) => unreached(),
    };
    proof {
        lemma_sensor_bytes_len(sensors, kind, 0, 3);
        lemma_sensor_bytes_index(sensors, kind, 0, 3, 0);
        lemma_sensor_bytes_index(sensors, kind, 0, 3, 1);
        lemma_sensor_bytes_index(sensors, kind, 0, 3, 2);
        lemma_wire_u16_round_trip(crate::sensors::spec_sensor_value(sensors, kind, 0));
        lemma_wire_u16_round_trip(crate::sensors::spec_sensor_value(sensors, kind, 1));
        lemma_wire_u16_round_trip(crate::sensors::spec_sensor_value(sensors, kind, 2));
    }
    let a = wire_to_i16(read_wire_u16(&bytes, 0));
    let b = wire_to_i16(read_wire_u16(&bytes, 1));
    let c = wire_to_i16(read_wire_u16(&bytes, 2));
    (a, b, c)
}

/// Get the current values of the gyro (returns pitch, roll, and yaw speed
/// values in deg/s).
pub fn read_gyro<S: SimulationStepper>(host: &mut BotHost<S>) -> (gyro: (i16, i16, i16))
    requires
        old(host).wf(),
    ensures
        final(host).wf(),
        final(host).model() == old(host).model(),
        gyro == old(host).model().stepper.sensors.gyro,
{
    read_triple(host, SensorKind::Gyro)
}

/// Get the current absolute euler angles (returns pitch, roll, and yaw
/// values in deg).
pub fn get_imu_fused_data<S: SimulationStepper>(host: &mut BotHost<S>) -> (angles: (i16, i16, i16))
    requires
        old(host).wf(),
    ensures
        final(host).wf(),
        final(host).model() == old(host).model(),
        angles == old(host).model().stepper.sensors.imu_fused,
{
    read_triple(host, SensorKind::ImuFused)
}

/// Get the current time in microseconds.
pub fn get_time_us<S: SimulationStepper>(host: &BotHost<S>) -> (t: u32)
    ensures
        t as int == host.model().now,
{
    host.current_time()
}

/// Sleep for the given time in microseconds.
pub fn sleep_for<S: SimulationStepper>(host: &mut BotHost<S>, time_us: u32)
    requires
        old(host).wf(),
    ensures
        final(host).wf(),
        final(host).model() == crate::host::spec_sleep_for::<S>(old(host).model(), time_us as int),
        final(host).model().now >= old(host).model().now,
{
    host.sleep_blocking_for(time_us);
}

/// Sleep until the given time in microseconds.
pub fn sleep_until<S: SimulationStepper>(host: &mut BotHost<S>, time_us: u32)
    requires
        old(host).wf(),
    ensures
        final(host).wf(),
        final(host).model() == crate::host::spec_sleep_until::<S>(
            old(host).model(),
            time_us as int,
        ),
        final(host).model().now >= old(host).model().now,
{
    host.sleep_blocking_until(time_us);
}

/// Check if the remote is enabled.
pub fn remote_enabled<S: SimulationStepper>(host: &mut BotHost<S>) -> (enabled: bool)
    requires
        old(host).wf(),
    ensures
        final(host).wf(),
        final(host).model() == (crate::host::HostModel { active: true, ..old(host).model() }),
        enabled == old(host).model().remote_enabled,
{
    host.get_enabled()
}

/// Wait for the remote to be enabled.
pub fn wait_remote_enabled<S: SimulationStepper>(host: &mut BotHost<S>)
    requires
        old(host).wf(),
    ensures
        final(host).wf(),
        final(host).model() == crate::host::spec_wait_enabled::<S>(old(host).model()),
{
    host.wait_enabled();
}

/// Wait for the remote to be disabled.
pub fn wait_remote_disabled<S: SimulationStepper>(host: &mut BotHost<S>)
    requires
        old(host).wf(),
    ensures
        final(host).wf(),
        final(host).model() == crate::host::spec_wait_disabled::<S>(old(host).model()),
{
    host.wait_disabled();
}

/// Log a message to the console.
pub fn console_log<S: SimulationStepper>(host: &mut BotHost<S>, text: &str)
    requires
        old(host).wf(),
    ensures
        final(host).wf(),
        final(host).model() == (crate::host::HostModel {
            log: old(host).model().log + text.spec_bytes() + seq![10u8],
            ..old(host).model()
        }),
{
    host.write_line(text);
}

/// Write data into a binary file.
pub fn write_plain_file<S: SimulationStepper>(host: &mut BotHost<S>, name: &str, data: &[u8])
    requires
        old(host).wf(),
    ensures
        final(host).wf(),
        final(host).model().files.len() == old(host).model().files.len() + 1,
        final(host).model().files.last().name@ == name@,
        final(host).model().files.last().bytes@ == data@,
        final(host).model().files.last().schema is None,
        final(host).model().files.drop_last() == old(host).model().files,
        final(host).model() == (crate::host::HostModel {
            files: final(host).model().files,
            ..old(host).model()
        }),
{
    let file = FileArtifact { name: name.to_owned(), bytes: slice_to_vec(data), schema: None };
    host.write_file(file);
}

/// Write data into a CSV file with the given column schema.
pub fn write_csv_file<S: SimulationStepper>(
    host: &mut BotHost<S>,
    name: &str,
    data: &[u8],
    schema: Vec<CsvColumn>,
)
    requires
        old(host).wf(),
    ensures
        final(host).wf(),
        final(host).model().files.len() == old(host).model().files.len() + 1,
        final(host).model().files.last().name@ == name@,
        final(host).model().files.last().bytes@ == data@,
        final(host).model().files.last().schema matches Some(s) && s == schema,
        final(host).model().files.drop_last() == old(host).model().files,
        final(host).model() == (crate::host::HostModel {
            files: final(host).model().files,
            ..old(host).model()
        }),
{
    let file = FileArtifact {
        name: name.to_owned(),
        bytes: slice_to_vec(data),
        schema: Some(schema),
    };
    host.write_file(file);
}

} // verus!
