//! Sensor vocabulary of the guest ABI and the byte encoding of sensor values.
//!
//! Every sensor kind exposes a fixed number of values; a read names a kind
//! and a range of value indices and receives the values packed little-endian,
//! each value in the byte width of its kind.

use vstd::prelude::*;

verus! {

broadcast use vstd::array::group_array_axioms;

/// The sensors a guest may read.
#[derive(Clone, Copy, Debug, PartialEq, Eq, Structural)]
pub enum SensorKind {
    /// Sixteen line-reflectance values, one byte each, 0 black to 100 white.
    Line,
    /// Angular velocity around the three body axes, degrees per second.
    Gyro,
    /// Fused absolute Euler angles of the body, degrees.
    ImuFused,
    /// Cumulative motor shaft angles, left then right, wrapped to 16 bits.
    MotorAngles,
    /// The remote-enable signal, one byte, zero or one.
    Enabled,
}

/// A contiguous range of value indices within one sensor kind.
#[derive(Clone, Copy, Debug, PartialEq, Eq, Structural)]
pub struct SensorIndexRange {
    pub start: u16,
    pub count: u16,
}

/// Where the robot stands relative to the track, as seen by the downward
/// body ray: over the end cap, over any other segment, or off the track.
#[derive(Clone, Copy, Debug, PartialEq, Eq, Structural)]
pub enum BotPosition {
    OnTrack,
    End,
    Out,
}

/// One consistent snapshot of every simulated sensor.
#[derive(Clone, Copy, Debug, PartialEq, Eq)]
pub struct SensorsData {
    /// Line-reflectance values in `[0, 100]`, leftmost sensor first.
    pub line: [u8; 16],
    /// Angular velocity (pitch, roll, yaw), degrees per second.
    pub gyro: (i16, i16, i16),
    /// Fused Euler angles (pitch, roll, yaw), degrees.
    pub imu_fused: (i16, i16, i16),
    /// Motor shaft angles (left, right), wrapped to 16 bits.
    pub motor_angles: (u16, u16),
    /// The remote-enable signal.
    pub enabled: bool,
    /// The bot-on-track classification.
    pub bot_position: BotPosition,
}

impl SensorsData {
    /// A quiet initial snapshot: all sensors read white, nothing moves, and
    /// the robot starts over the track.
    pub fn initial() -> (d: SensorsData)
        ensures
            d.line@ =~= Seq::new(16, |i: int| 100u8),
            d.gyro == (0i16, 0i16, 0i16),
            d.imu_fused == (0i16, 0i16, 0i16),
            d.motor_angles == (0u16, 0u16),
            d.enabled == true,
            d.bot_position == BotPosition::OnTrack,
    {
        SensorsData {
            line: [100; 16],
            gyro: (0, 0, 0),
            imu_fused: (0, 0, 0),
            motor_angles: (0, 0),
            enabled: true,
            bot_position: BotPosition::OnTrack,
        }
    }
}

/// Number of values a sensor kind exposes.
pub open spec fn spec_sensor_count(kind: SensorKind) -> nat {
    match kind {
        SensorKind::Line => 16,
        SensorKind::Gyro => 3,
        SensorKind::ImuFused => 3,
        SensorKind::MotorAngles => 2,
        SensorKind::Enabled => 1,
    }
}

/// Byte width of one value of a sensor kind.
pub open spec fn spec_sensor_width(kind: SensorKind) -> nat {
    match kind {
        SensorKind::Line => 1,
        SensorKind::Gyro => 2,
        SensorKind::ImuFused => 2,
        SensorKind::MotorAngles => 2,
        SensorKind::Enabled => 1,
    }
}

/// Whether a range asks only for value indices that the kind exposes.
pub open spec fn spec_range_valid(kind: SensorKind, range: SensorIndexRange) -> bool {
    range.start + range.count <= spec_sensor_count(kind)
}

/// Number of values a sensor kind exposes.
pub fn sensor_count(kind: SensorKind) -> (n: u16)
    ensures
        n == spec_sensor_count(kind),
{
    match kind {
        SensorKind::Line => 16,
        SensorKind::Gyro => 3,
        SensorKind::ImuFused => 3,
        SensorKind::MotorAngles => 2,
        SensorKind::Enabled => 1,
    }
}

/// Byte width of one value of a sensor kind.
pub fn sensor_width(kind: SensorKind) -> (w: u16)
    ensures
        w == spec_sensor_width(kind),
{
    match kind {
        SensorKind::Line => 1,
        SensorKind::Gyro => 2,
        SensorKind::ImuFused => 2,
        SensorKind::MotorAngles => 2,
        SensorKind::Enabled => 1,
    }
}

/// Whether a range asks only for value indices that the kind exposes.
pub fn range_valid(kind: SensorKind, range: SensorIndexRange) -> (ok: bool)
    ensures
        ok == spec_range_valid(kind, range),
{
    let n = sensor_count(kind);
    range.count <= n && range.start <= n - range.count
}

/// The `i`-th value of a sensor kind in a snapshot, as the unsigned integer
/// that is packed into the wire bytes (two's complement image for the
/// signed kinds).
pub open spec fn spec_sensor_value(data: SensorsData, kind: SensorKind, i: int) -> int {
    match kind {
        SensorKind::Line => data.line@[i] as int,
        SensorKind::Gyro => {
            let v = if i == 0 {
                data.gyro.0 as int
            } else if i == 1 {
                data.gyro.1 as int
            } else {
                data.gyro.2 as int
            };
            if v < 0 {
                v + 0x10000
            } else {
                v
            }
        },
        SensorKind::ImuFused => {
            let v = if i == 0 {
                data.imu_fused.0 as int
            } else if i == 1 {
                data.imu_fused.1 as int
            } else {
                data.imu_fused.2 as int
            };
            if v < 0 {
                v + 0x10000
            } else {
                v
            }
        },
        SensorKind::MotorAngles => if i == 0 {
            data.motor_angles.0 as int
        } else {
            data.motor_angles.1 as int
        },
        SensorKind::Enabled => if data.enabled {
            1
        } else {
            0
        },
    }
}

/// The little-endian bytes of one sensor value.
pub open spec fn spec_encode_value(kind: SensorKind, v: int) -> Seq<u8> {
    if spec_sensor_width(kind) == 1 {
        seq![(v % 256) as u8]
    } else {
        seq![(v % 256) as u8, ((v / 256) % 256) as u8]
    }
}

/// The wire bytes of the values `start .. start + count` of a sensor kind.
pub open spec fn spec_sensor_bytes(
    data: SensorsData,
    kind: SensorKind,
    start: int,
    count: nat,
) -> Seq<u8>
    decreases count,
{
    if count == 0 {
        Seq::empty()
    } else {
        spec_encode_value(kind, spec_sensor_value(data, kind, start)) + spec_sensor_bytes(
            data,
            kind,
            start + 1,
            (count - 1) as nat,
        )
    }
}

/// Reading one more value appends its bytes at the end of the stream.
proof fn lemma_sensor_bytes_snoc(data: SensorsData, kind: SensorKind, start: int, count: nat)
    ensures
        spec_sensor_bytes(data, kind, start, count + 1) =~= spec_sensor_bytes(
            data,
            kind,
            start,
            count,
        ) + spec_encode_value(kind, spec_sensor_value(data, kind, start + count)),
    decreases count,
{
    if count == 0 {
        assert(spec_sensor_bytes(data, kind, start + 1, 0) == Seq::<u8>::empty());
    } else {
        lemma_sensor_bytes_snoc(data, kind, start + 1, (count - 1) as nat);
    }
}

/// The wire stream is as long as the widths say.
pub proof fn lemma_sensor_bytes_len(data: SensorsData, kind: SensorKind, start: int, count: nat)
    ensures
        spec_sensor_bytes(data, kind, start, count).len() == count * spec_sensor_width(kind),
    decreases count,
{
    if count == 0 {
        assert(count * spec_sensor_width(kind) == 0) by (nonlinear_arith)
            requires
                count == 0,
        ;
    } else {
        lemma_sensor_bytes_len(data, kind, start + 1, (count - 1) as nat);
        assert(count * spec_sensor_width(kind) == (count - 1) * spec_sensor_width(kind)
            + spec_sensor_width(kind)) by (nonlinear_arith);
    }
}

/// The two's-complement wire image of a signed 16-bit value.
fn i16_to_wire(v: i16) -> (r: u16)
    ensures
        r as int == (if v < 0 {
            v + 0x10000
        } else {
            v as int
        }),
{
    if v < 0 {
        let w: i32 = v as i32 + 0x10000;
        w as u16
    } else {
        v as u16
    }
}

/// Where each value sits in the wire stream: value `j` occupies the bytes
/// at `j * width`, low byte first.
pub proof fn lemma_sensor_bytes_index(
    data: SensorsData,
    kind: SensorKind,
    start: int,
    count: nat,
    j: int,
)
    requires
        0 <= j < count,
    ensures
        spec_sensor_width(kind) == 1 ==> spec_sensor_bytes(data, kind, start, count)[j] == (
        spec_sensor_value(data, kind, start + j) % 256) as u8,
        spec_sensor_width(kind) == 2 ==> {
            &&& spec_sensor_bytes(data, kind, start, count)[2 * j] == (spec_sensor_value(
                data,
                kind,
                start + j,
            ) % 256) as u8
            &&& spec_sensor_bytes(data, kind, start, count)[2 * j + 1] == ((spec_sensor_value(
                data,
                kind,
                start + j,
            ) / 256) % 256) as u8
        },
    decreases j,
{
    lemma_sensor_bytes_len(data, kind, start + 1, (count - 1) as nat);
    if j > 0 {
        lemma_sensor_bytes_index(data, kind, start + 1, (count - 1) as nat, j - 1);
        if spec_sensor_width(kind) == 2 {
            assert(2 * j == 2 * (j - 1) + 2);
            assert(2 * j + 1 == (2 * (j - 1) + 1) + 2);
        }
    }
}

/// The `i`-th sensor value of a snapshot, as packed on the wire.
fn sensor_value(data: &SensorsData, kind: SensorKind, i: u16) -> (v: u16)
    requires
        i < spec_sensor_count(kind),
    ensures
        v == spec_sensor_value(*data, kind, i as int),
{
    match kind {
        SensorKind::Line => data.line[i as usize] as u16,
        SensorKind::Gyro => {
            let v: i16 = if i == 0 {
                data.gyro.0
            } else if i == 1 {
                data.gyro.1
            } else {
                data.gyro.2
            };
            i16_to_wire(v)
        },
        SensorKind::ImuFused => {
            let v: i16 = if i == 0 {
                data.imu_fused.0
            } else if i == 1 {
                data.imu_fused.1
            } else {
                data.imu_fused.2
            };
            i16_to_wire(v)
        },
        SensorKind::MotorAngles => if i == 0 {
            data.motor_angles.0
        } else {
            data.motor_angles.1
        },
        SensorKind::Enabled => if data.enabled {
            1
        } else {
            0
        },
    }
}

/// Packs the requested range of sensor values into their little-endian wire
/// bytes, one or two bytes per value by the width of the kind.
pub fn pack_sensor_values(data: &SensorsData, kind: SensorKind, range: SensorIndexRange) -> (bytes:
    Vec<u8>)
    requires
        spec_range_valid(kind, range),
    ensures
        bytes@ =~= spec_sensor_bytes(*data, kind, range.start as int, range.count as nat),
        bytes@.len() == range.count as nat * spec_sensor_width(kind),
{
    let width = sensor_width(kind);
    let mut bytes: Vec<u8> = Vec::new();
    let mut i: u16 = 0;
    while i < range.count
        invariant
            i <= range.count,
            spec_range_valid(kind, range),
            width == spec_sensor_width(kind),
            bytes@ =~= spec_sensor_bytes(*data, kind, range.start as int, i as nat),
        decreases range.count - i,
    {
        let v = sensor_value(data, kind, range.start + i);
        bytes.push((v % 256) as u8);
        if width == 2 {
            bytes.push(((v / 256) % 256) as u8);
        }
        proof {
            lemma_sensor_bytes_snoc(*data, kind, range.start as int, i as nat);
        }
        i = i + 1;
    }
    proof {
        lemma_sensor_bytes_len(*data, kind, range.start as int, range.count as nat);
    }
    bytes
}

/// Reads back the `i`-th value of a packed stream of the given width:
/// the inverse of `pack_sensor_values`, one value at a time.
pub fn unpack_value(bytes: &Vec<u8>, width: u16, i: usize) -> (v: u16)
    requires
        width == 1 ==> i < bytes@.len(),
        width == 2 ==> 2 * i + 1 < bytes@.len(),
        width == 1 || width == 2,
    ensures
        width == 1 ==> v == bytes@[i as int] as int,
        width == 2 ==> v == bytes@[2 * i] as int + 256 * bytes@[2 * i + 1],
{
    let n = bytes.len();
    if width == 1 {
        bytes[i] as u16
    } else {
        assert(2 * i + 1 < n);
        let lo = bytes[2 * i];
        let hi = bytes[2 * i + 1];
        lo as u16 + 256 * (hi as u16)
    }
}

/// Micro-radians per whole degree, rounded down: the quantization step of
/// the inertial sensors.
pub const URAD_PER_DEG: i64 = 17_453;

/// An angle or angular velocity in micro-radians, quantized towards zero
/// to the whole degrees the inertial sensors report, saturated at the
/// 16-bit range.
pub open spec fn spec_quantize_deg(urad: int) -> int {
    let deg = if urad >= 0 {
        urad / (URAD_PER_DEG as int)
    } else {
        -((-urad) / (URAD_PER_DEG as int))
    };
    if deg < i16::MIN as int {
        i16::MIN as int
    } else if deg > i16::MAX as int {
        i16::MAX as int
    } else {
        deg
    }
}

/// Quantizes an angle or angular velocity in micro-radians to the whole
/// degrees the inertial sensors report.
pub fn quantize_deg(urad: i64) -> (deg: i16)
    ensures
        deg as int == spec_quantize_deg(urad as int),
{
    let wide: i128 = urad as i128;
    let magnitude: u128 = if wide >= 0 {
        wide as u128
    } else {
        (-wide) as u128
    };
    let whole: u128 = magnitude / (URAD_PER_DEG as u128);
    proof {
        vstd::arithmetic::div_mod::lemma_div_pos_is_pos(magnitude as int, URAD_PER_DEG as int);
        vstd::arithmetic::div_mod::lemma_div_is_ordered_by_denominator(
            magnitude as int,
            1,
            URAD_PER_DEG as int,
        );
        vstd::arithmetic::div_mod::lemma_div_by_self(1);
    }
    let signed: i128 = if wide >= 0 {
        whole as i128
    } else {
        -(whole as i128)
    };
    if signed < i16::MIN as i128 {
        i16::MIN
    } else if signed > i16::MAX as i128 {
        i16::MAX
    } else {
        signed as i16
    }
}

/// The lateral offset of one of the sixteen line sensors from the body
/// centre line, in nanometres: the array is centred, neighbours one
/// spacing apart, sensor zero leftmost (most negative).
pub open spec fn spec_line_sensor_offset_nm(spacing_um: int, i: int) -> int {
    (2 * i - 15) * spacing_um * 500
}

/// The lateral offset of one line sensor from the body centre line.
pub fn line_sensor_offset_nm(spacing_um: u32, i: usize) -> (offset: i64)
    requires
        i < 16,
    ensures
        offset == spec_line_sensor_offset_nm(spacing_um as int, i as int),
{
    proof {
        assert(-15 * 0x1_0000_0000i64 * 500 <= (2 * (i as int) - 15) * (spacing_um as int) * 500
            <= 17 * 0x1_0000_0000i64 * 500 && (2 * (i as int) - 15) * (spacing_um as int) * 500
            == ((2 * (i as int) - 15) * (spacing_um as int)) * 500) by (nonlinear_arith)
            requires
                0 <= i < 16,
                0 <= spacing_um < 0x1_0000_0000,
        ;
    }
    (2 * (i as i64) - 15) * (spacing_um as i64) * 500
}

} // verus!
