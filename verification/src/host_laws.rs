//! What holds of every run of the host: a guest session is a fold of pure
//! transitions over its call sequence, simulated time never runs backwards,
//! equal runs are identical, and dead handles stay dead.

use vstd::prelude::*;

verus! {

use crate::exec_data::FileArtifact;
use crate::host::{
    spec_advance,
    spec_alloc,
    spec_deadline_for,
    spec_host_wf,
    spec_poll_sensor,
    spec_poll_timer,
    spec_sleep_for,
    spec_sleep_until,
    spec_steps_for,
    spec_wait_disabled,
    spec_wait_enabled,
    HandleModel,
    HostModel,
    ReadError,
};
use crate::motors::spec_clamp_pwm;
use crate::sensors::{spec_range_valid, spec_sensor_bytes, SensorIndexRange, SensorKind};
use crate::stepper::SimulationStepper;

/// One guest-visible host operation, with its arguments.
pub ghost enum HostCall {
    CurrentTime,
    SleepFor { us: u32 },
    SleepUntil { us: u32 },
    ReadSensorBlocking { kind: SensorKind, range: SensorIndexRange },
    SleepAsyncFor { us: u32 },
    SleepAsyncUntil { us: u32 },
    ReadSensorAsync { kind: SensorKind, range: SensorIndexRange },
    PollTimer { handle: u64 },
    PollSensor { handle: u64 },
    ForgetHandle { handle: u64 },
    SetPower { left: i16, right: i16 },
    GetEnabled,
    WaitEnabled,
    WaitDisabled,
    WriteLine { text: Seq<u8> },
    WriteFile { file: FileArtifact },
}

/// The state one host operation leaves behind.  Immediate operations do not
/// move time; only the blocking ones step the simulation.
pub open spec fn spec_apply_call<S: SimulationStepper>(h: HostModel, c: HostCall) -> HostModel {
    match c {
        HostCall::CurrentTime => h,
        HostCall::SleepFor { us } => spec_sleep_for::<S>(h, us as int),
        HostCall::SleepUntil { us } => spec_sleep_until::<S>(h, us as int),
        HostCall::ReadSensorBlocking { .. } => h,
        HostCall::SleepAsyncFor { us } => spec_alloc::<S>(
            h,
            HandleModel::Sleep { deadline_us: spec_deadline_for(h, us as int) },
        ),
        HostCall::SleepAsyncUntil { us } => spec_alloc::<S>(
            h,
            HandleModel::Sleep { deadline_us: us as int },
        ),
        HostCall::ReadSensorAsync { kind, range } => spec_alloc::<S>(
            h,
            if spec_range_valid(kind, range) {
                HandleModel::Sensor {
                    deadline_us: h.now,
                    bytes: spec_sensor_bytes(
                        h.stepper.sensors,
                        kind,
                        range.start as int,
                        range.count as nat,
                    ),
                }
            } else {
                HandleModel::SensorInvalid
            },
        ),
        HostCall::PollTimer { .. } => h,
        HostCall::PollSensor { .. } => h,
        HostCall::ForgetHandle { handle } => HostModel {
            handles: h.handles.remove(handle),
            ..h
        },
        HostCall::SetPower { left, right } => HostModel {
            stepper: h.stepper.with_motors(
                spec_clamp_pwm(left as int) as i16,
                spec_clamp_pwm(right as int) as i16,
            ),
            ..h
        },
        HostCall::GetEnabled => HostModel { active: true, ..h },
        HostCall::WaitEnabled => spec_wait_enabled::<S>(h),
        HostCall::WaitDisabled => spec_wait_disabled::<S>(h),
        HostCall::WriteLine { text } => HostModel { log: h.log + text + seq![10u8], ..h },
        HostCall::WriteFile { file } => HostModel { files: h.files.push(file), ..h },
    }
}

/// The state a whole call sequence leaves behind.
pub open spec fn spec_run<S: SimulationStepper>(h: HostModel, calls: Seq<HostCall>) -> HostModel
    decreases calls.len(),
{
    if calls.len() == 0 {
        h
    } else {
        spec_apply_call::<S>(spec_run::<S>(h, calls.drop_last()), calls.last())
    }
}

/// No host operation breaks the host or turns time backwards.
pub proof fn lemma_call_keeps_wf_and_time<S: SimulationStepper>(h: HostModel, c: HostCall)
    requires
        spec_host_wf(h),
    ensures
        spec_host_wf(spec_apply_call::<S>(h, c)),
        spec_apply_call::<S>(h, c).now >= h.now,
        spec_apply_call::<S>(h, c).period == h.period,
{
    let h2 = spec_apply_call::<S>(h, c);
    match c {
        HostCall::SleepFor { us } => {
            let n = spec_steps_for(h, us as int);
            crate::host::lemma_advance_props::<S>(h, n);
            assert(h.now + n * h.period >= h.now) by (nonlinear_arith)
                requires
                    n >= 0,
                    h.period >= 1,
            ;
        },
        HostCall::SleepUntil { us } => {
            if us as int > h.now {
                let n = spec_steps_for(h, us as int - h.now);
                crate::host::lemma_advance_props::<S>(h, n);
                assert(h.now + n * h.period >= h.now) by (nonlinear_arith)
                    requires
                        n >= 0,
                        h.period >= 1,
                ;
            }
        },
        HostCall::WaitEnabled | HostCall::WaitDisabled => {
            let live = HostModel { active: true, ..h };
            let n = (h.total_steps - h.steps_done) as nat;
            crate::host::lemma_advance_props::<S>(live, n);
            assert(h.now + n * h.period >= h.now) by (nonlinear_arith)
                requires
                    n >= 0,
                    h.period >= 1,
            ;
        },
        HostCall::SleepAsyncFor { .. } | HostCall::SleepAsyncUntil { .. }
            | HostCall::ReadSensorAsync { .. } => {
            assert(forall|k: u64| #[trigger] h2.handles.dom().contains(k) ==> (k as int)
                < h2.next_handle);
        },
        _ => {},
    }
}

/// A whole run keeps the host valid and moves time only forward.
pub proof fn lemma_run_keeps_wf_and_time<S: SimulationStepper>(h: HostModel, calls: Seq<HostCall>)
    requires
        spec_host_wf(h),
    ensures
        spec_host_wf(spec_run::<S>(h, calls)),
        spec_run::<S>(h, calls).now >= h.now,
    decreases calls.len(),
{
    if calls.len() > 0 {
        lemma_run_keeps_wf_and_time::<S>(h, calls.drop_last());
        lemma_call_keeps_wf_and_time::<S>(spec_run::<S>(h, calls.drop_last()), calls.last());
    }
}

/// Time monotonicity: over any sequence of host calls, the time counter a
/// guest observes after an earlier prefix is never above the one it
/// observes after a later prefix.
pub proof fn lemma_time_monotone<S: SimulationStepper>(
    h: HostModel,
    calls: Seq<HostCall>,
    i: int,
    j: int,
)
    requires
        spec_host_wf(h),
        0 <= i <= j <= calls.len(),
    ensures
        spec_run::<S>(h, calls.take(i)).now <= spec_run::<S>(h, calls.take(j)).now,
    decreases j - i,
{
    if i < j {
        lemma_time_monotone::<S>(h, calls, i, j - 1);
        lemma_run_keeps_wf_and_time::<S>(h, calls.take(j - 1));
        assert(calls.take(j).drop_last() =~= calls.take(j - 1));
        assert(calls.take(j).last() == calls[j - 1]);
        lemma_call_keeps_wf_and_time::<S>(spec_run::<S>(h, calls.take(j - 1)), calls[j - 1]);
    }
}

/// Determinism: two runs from the same state over the same calls are the
/// same run -- the traces, logs and artifacts they leave are identical.
pub proof fn lemma_runs_identical<S: SimulationStepper>(
    h1: HostModel,
    h2: HostModel,
    calls1: Seq<HostCall>,
    calls2: Seq<HostCall>,
)
    requires
        h1 == h2,
        calls1 == calls2,
    ensures
        spec_run::<S>(h1, calls1) == spec_run::<S>(h2, calls2),
        spec_run::<S>(h1, calls1).trace == spec_run::<S>(h2, calls2).trace,
        spec_run::<S>(h1, calls1).log == spec_run::<S>(h2, calls2).log,
        spec_run::<S>(h1, calls1).files == spec_run::<S>(h2, calls2).files,
{
}

/// A handle that was never allocated answers `InvalidHandle` to either
/// poll.
pub proof fn lemma_poll_never_allocated(h: HostModel, handle: u64)
    requires
        spec_host_wf(h),
        handle as int >= h.next_handle,
    ensures
        spec_poll_timer(h, handle) == Err::<crate::host::AsyncVoidResult, ReadError>(
            ReadError::InvalidHandle,
        ),
        spec_poll_sensor(h, handle) == Err::<crate::host::AsyncSensorModel, ReadError>(
            ReadError::InvalidHandle,
        ),
{
    assert(!h.handles.dom().contains(handle));
}

/// A forgotten handle answers `InvalidHandle` to either poll, whatever it
/// was before.
pub proof fn lemma_poll_forgotten<S: SimulationStepper>(h: HostModel, handle: u64)
    ensures
        spec_poll_timer(spec_apply_call::<S>(h, HostCall::ForgetHandle { handle }), handle)
            == Err::<crate::host::AsyncVoidResult, ReadError>(ReadError::InvalidHandle),
        spec_poll_sensor(spec_apply_call::<S>(h, HostCall::ForgetHandle { handle }), handle)
            == Err::<crate::host::AsyncSensorModel, ReadError>(ReadError::InvalidHandle),
{
    let h2 = spec_apply_call::<S>(h, HostCall::ForgetHandle { handle });
    assert(!h2.handles.dom().contains(handle));
}

} // verus!
