//! The execution recorder: one record per fixed simulation step, plus the
//! guest's log and its named output artifacts.

use vstd::prelude::*;

verus! {

use crate::sensors::SensorsData;
use vstd::string::StringSliceAdditionalSpecFns;

/// A rigid pose: position in nanometres, orientation as XYZ Euler angles in
/// microdegrees.
#[derive(Clone, Copy, Debug, PartialEq, Eq, Structural)]
pub struct Pose {
    pub x_nm: i64,
    pub y_nm: i64,
    pub z_nm: i64,
    pub pitch_udeg: i64,
    pub roll_udeg: i64,
    pub yaw_udeg: i64,
}

impl Pose {
    /// The pose at the world origin, unrotated.
    pub fn identity() -> (p: Pose)
        ensures
            p == (Pose {
                x_nm: 0,
                y_nm: 0,
                z_nm: 0,
                pitch_udeg: 0,
                roll_udeg: 0,
                yaw_udeg: 0,
            }),
    {
        Pose { x_nm: 0, y_nm: 0, z_nm: 0, pitch_udeg: 0, roll_udeg: 0, yaw_udeg: 0 }
    }
}

/// Column kinds a CSV schema may declare; the file body packs each column
/// value little-endian in the width of its kind.
#[derive(Clone, Copy, Debug, PartialEq, Eq, Structural)]
pub enum CsvValueKind {
    U8,
    U16,
    I16,
    U32,
    I32,
    F32,
}

/// Byte width of one value of a CSV column kind.
pub open spec fn spec_csv_width(kind: CsvValueKind) -> nat {
    match kind {
        CsvValueKind::U8 => 1,
        CsvValueKind::U16 => 2,
        CsvValueKind::I16 => 2,
        CsvValueKind::U32 => 4,
        CsvValueKind::I32 => 4,
        CsvValueKind::F32 => 4,
    }
}

impl CsvValueKind {
    /// Byte width of one value of this kind.
    pub fn width(self) -> (w: usize)
        ensures
            w == spec_csv_width(self),
    {
        match self {
            CsvValueKind::U8 => 1,
            CsvValueKind::U16 => 2,
            CsvValueKind::I16 => 2,
            CsvValueKind::U32 => 4,
            CsvValueKind::I32 => 4,
            CsvValueKind::F32 => 4,
        }
    }
}

/// One named column of a CSV artifact.
#[derive(Clone, Debug, PartialEq, Eq)]
pub struct CsvColumn {
    pub name: String,
    pub kind: CsvValueKind,
}

/// Byte width of one packed row of a schema.
pub open spec fn spec_row_width(schema: Seq<CsvColumn>) -> nat
    decreases schema.len(),
{
    if schema.len() == 0 {
        0
    } else {
        spec_row_width(schema.drop_last()) + spec_csv_width(schema.last().kind)
    }
}

/// Byte width of one packed row of a schema.
pub fn csv_row_width(schema: &Vec<CsvColumn>) -> (w: usize)
    requires
        schema@.len() <= 0x1000_0000,
    ensures
        w == spec_row_width(schema@),
        w <= 4 * schema@.len(),
{
    let mut w: usize = 0;
    let mut i: usize = 0;
    while i < schema.len()
        invariant
            i <= schema@.len() <= 0x1000_0000,
            w == spec_row_width(schema@.subrange(0, i as int)),
            w <= 4 * i,
        decreases schema@.len() - i,
    {
        proof {
            assert(schema@.subrange(0, i + 1).drop_last() =~= schema@.subrange(0, i as int));
            assert(schema@.subrange(0, i + 1).last() == schema@[i as int]);
        }
        w = w + schema[i].kind.width();
        i = i + 1;
    }
    proof {
        assert(schema@.subrange(0, schema@.len() as int) =~= schema@);
    }
    w
}

/// One output artifact the guest registered: a name, the raw bytes, and,
/// for CSV files, the column schema.
#[derive(Clone, Debug, PartialEq, Eq)]
pub struct FileArtifact {
    pub name: String,
    pub bytes: Vec<u8>,
    pub schema: Option<Vec<CsvColumn>>,
}

/// Whether the guest has marked the run live; recording and motor torques
/// are suppressed while it has not.
#[derive(Clone, Copy, Debug, PartialEq, Eq, Structural)]
pub struct ActivityData {
    pub started: bool,
}

impl ActivityData {
    /// Whether records and torques are live now.
    pub fn is_active_now(&self) -> (a: bool)
        ensures
            a == self.started,
    {
        self.started
    }
}

/// The record taken after one fixed simulation step.
#[derive(Clone, Copy, Debug, PartialEq, Eq)]
pub struct ExecutionStep {
    /// Simulated time at the end of the step, microseconds.
    pub time_us: u32,
    pub body_transform: Pose,
    pub left_wheel_transform: Pose,
    pub right_wheel_transform: Pose,
    pub sensors_snapshot: SensorsData,
    /// The motor command in force during the step (left, right).
    pub motor_commands: (i16, i16),
}

/// Everything one run accumulates: the per-step trace, the activity flag,
/// the log bytes and the named artifacts.
#[derive(Clone, Debug, PartialEq, Eq)]
pub struct ExecutionData {
    pub steps: Vec<ExecutionStep>,
    pub activity_data: ActivityData,
    pub step_period_us: u32,
    /// The guest log, newline-delimited UTF-8.
    pub log: Vec<u8>,
    pub files: Vec<FileArtifact>,
}

impl ExecutionData {
    /// A fresh recorder with no records.
    pub fn empty(step_period_us: u32, force_initially_started: bool) -> (d: ExecutionData)
        ensures
            d.steps@ =~= Seq::<ExecutionStep>::empty(),
            d.activity_data.started == force_initially_started,
            d.step_period_us == step_period_us,
            d.log@ =~= Seq::<u8>::empty(),
            d.files@ =~= Seq::<FileArtifact>::empty(),
    {
        ExecutionData {
            steps: Vec::new(),
            activity_data: ActivityData { started: force_initially_started },
            step_period_us,
            log: Vec::new(),
            files: Vec::new(),
        }
    }

    /// Appends one step record to the trace.
    pub fn push_step(&mut self, step: ExecutionStep)
        ensures
            final(self).steps@ == old(self).steps@.push(step),
            final(self).activity_data == old(self).activity_data,
            final(self).step_period_us == old(self).step_period_us,
            final(self).log == old(self).log,
            final(self).files == old(self).files,
    {
        self.steps.push(step);
    }

    /// Appends one log line: the text's UTF-8 bytes and a newline.
    pub fn append_log_line(&mut self, text: &str)
        ensures
            final(self).log@ == old(self).log@ + text.spec_bytes() + seq![10u8],
            final(self).steps == old(self).steps,
            final(self).activity_data == old(self).activity_data,
            final(self).step_period_us == old(self).step_period_us,
            final(self).files == old(self).files,
    {
        self.log.extend_from_slice(text.as_bytes());
        self.log.push(10);
        proof {
            assert(self.log@ =~= old(self).log@ + text.spec_bytes() + seq![10u8]);
        }
    }

    /// Registers one output artifact.
    pub fn add_file(&mut self, file: FileArtifact)
        ensures
            final(self).files@ == old(self).files@.push(file),
            final(self).steps == old(self).steps,
            final(self).activity_data == old(self).activity_data,
            final(self).step_period_us == old(self).step_period_us,
            final(self).log == old(self).log,
    {
        self.files.push(file);
    }

    /// Marks the run live: from here on steps are recorded and motor
    /// commands produce torque.
    pub fn mark_started(&mut self)
        ensures
            final(self).activity_data.started == true,
            final(self).steps == old(self).steps,
            final(self).step_period_us == old(self).step_period_us,
            final(self).log == old(self).log,
            final(self).files == old(self).files,
    {
        self.activity_data.started = true;
    }
}

} // verus!
