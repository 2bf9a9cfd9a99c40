//! The host side of the guest ABI: the simulated-time counter, the
//! future/handle table, blocking and asynchronous sensor reads, sleeps,
//! motor-power writes, the remote-enable signal, and the recorder.
//!
//! Every operation is stated as a function of an abstract `HostModel`, so a
//! whole run is a fold of pure transitions over the call sequence; that is
//! what makes runs reproducible.

use vstd::prelude::*;

verus! {

use crate::exec_data::{ExecutionData, ExecutionStep, FileArtifact};
use crate::sensors::{
    range_valid,
    spec_range_valid,
    spec_sensor_bytes,
    SensorIndexRange,
    SensorKind,
};
use crate::motors::{spec_clamp_pwm, PWM_MAX, PWM_MIN};
use crate::stepper::{SimulationStepper, StepperModel};
use crate::track::Side;
use vstd::string::StringSliceAdditionalSpecFns;

/// Errors an ABI operation can hand back to the guest.
#[derive(Clone, Copy, Debug, PartialEq, Eq, Structural)]
pub enum ReadError {
    /// The operation polled a handle of the other flavour.
    InvalidSensor,
    /// The read named value indices the sensor kind does not expose.
    InvalidRange,
    /// The handle was never allocated, or was forgotten.
    InvalidHandle,
    /// The run was aborted by a trap; used by the driver, never by a live host.
    Trapped,
}

/// What polling a sleep handle yields.
#[derive(Clone, Copy, Debug, PartialEq, Eq, Structural)]
pub enum AsyncVoidResult {
    Blocked,
    Ready,
}

/// What polling a sensor-read handle yields; `Ready` carries the values
/// sampled when the read was issued.
#[derive(Clone, Debug, PartialEq, Eq)]
pub enum AsyncSensorResult {
    Blocked,
    Ready(Vec<u8>),
}

/// The state behind one live future handle.
#[derive(Clone, Debug)]
pub enum HandleState {
    /// An asynchronous sleep, ready once `now` reaches the deadline.
    SleepUntil(u32),
    /// An asynchronous sensor read: the values were sampled when the read
    /// was issued and become visible once `now` reaches the deadline.
    SensorRead { deadline_us: u32, bytes: Vec<u8> },
    /// A sensor read whose range was invalid; polling it reports the error.
    SensorInvalid,
}

/// The abstract state of one handle.
pub ghost enum HandleModel {
    Sleep { deadline_us: int },
    Sensor { deadline_us: int, bytes: Seq<u8> },
    SensorInvalid,
}

/// The abstract state of one handle-table slot.
pub open spec fn spec_handle_model(s: HandleState) -> HandleModel {
    match s {
        HandleState::SleepUntil(d) => HandleModel::Sleep { deadline_us: d as int },
        HandleState::SensorRead { deadline_us, bytes } => HandleModel::Sensor {
            deadline_us: deadline_us as int,
            bytes: bytes@,
        },
        HandleState::SensorInvalid => HandleModel::SensorInvalid,
    }
}

/// The handle table as a map: handles are slot indices, allocated in order;
/// a forgotten handle leaves an empty slot behind.
pub open spec fn spec_handles_map(slots: Seq<Option<HandleState>>) -> Map<u64, HandleModel> {
    Map::new(
        |h: u64| h < slots.len() && slots[h as int] is Some,
        |h: u64| spec_handle_model(slots[h as int]->Some_0),
    )
}

/// The abstract state of the whole host.
pub ghost struct HostModel {
    /// The fixed step, microseconds.
    pub period: int,
    /// Steps the whole run is entitled to.
    pub total_steps: int,
    /// Steps taken so far.
    pub steps_done: int,
    /// Simulated time now: always `steps_done * period`.
    pub now: int,
    /// Handles allocated so far; the next handle is the map's horizon.
    pub next_handle: int,
    pub handles: Map<u64, HandleModel>,
    pub trace: Seq<ExecutionStep>,
    pub log: Seq<u8>,
    pub files: Seq<FileArtifact>,
    /// Whether the run has been marked live (recording and torque enabled).
    pub active: bool,
    /// The remote-enable signal as the host last saw it.
    pub remote_enabled: bool,
    pub stepper: StepperModel,
}

/// Validity of a host model: time sits on the step grid and within the
/// run's entitlement, and everything fits its machine type.
pub open spec fn spec_host_wf(h: HostModel) -> bool {
    &&& 1 <= h.period <= u32::MAX
    &&& 0 <= h.steps_done <= h.total_steps
    &&& h.now == h.steps_done * h.period
    &&& h.total_steps * h.period <= u32::MAX
    &&& 0 <= h.next_handle
    &&& forall|k: u64| #[trigger] h.handles.dom().contains(k) ==> (k as int) < h.next_handle
}

/// One fixed step: the stepper's transition is applied, time moves by one
/// period, and, when the run is live, one record is appended to the trace.
pub open spec fn spec_one_step<S: SimulationStepper>(h: HostModel) -> HostModel {
    let sm = S::spec_step(h.stepper, h.period as u32);
    let now2 = h.now + h.period;
    let rec = ExecutionStep {
        time_us: now2 as u32,
        body_transform: sm.body,
        left_wheel_transform: sm.left_wheel,
        right_wheel_transform: sm.right_wheel,
        sensors_snapshot: sm.sensors,
        motor_commands: sm.motors,
    };
    HostModel {
        steps_done: h.steps_done + 1,
        now: now2,
        trace: if h.active {
            h.trace.push(rec)
        } else {
            h.trace
        },
        stepper: sm,
        ..h
    }
}

/// `n` fixed steps in a row.
pub open spec fn spec_advance<S: SimulationStepper>(h: HostModel, n: nat) -> HostModel
    decreases n,
{
    if n == 0 {
        h
    } else {
        spec_advance::<S>(spec_one_step::<S>(h), (n - 1) as nat)
    }
}

/// The last of `n + 1` steps comes after the first `n`.
pub proof fn lemma_advance_snoc<S: SimulationStepper>(h: HostModel, n: nat)
    ensures
        spec_advance::<S>(h, n + 1) == spec_one_step::<S>(spec_advance::<S>(h, n)),
    decreases n,
{
    if n == 0 {
        assert(spec_advance::<S>(spec_one_step::<S>(h), 0) == spec_one_step::<S>(h));
    } else {
        lemma_advance_snoc::<S>(spec_one_step::<S>(h), (n - 1) as nat);
    }
}

/// Stepping keeps the model valid and touches only time, the trace and the
/// stepper: at most `n` records are appended (exactly `n` when live) and
/// time moves forward by `n` periods, never beyond the entitlement.
pub proof fn lemma_advance_props<S: SimulationStepper>(h: HostModel, n: nat)
    requires
        spec_host_wf(h),
        n <= h.total_steps - h.steps_done,
    ensures
        spec_host_wf(spec_advance::<S>(h, n)),
        spec_advance::<S>(h, n).steps_done == h.steps_done + n,
        spec_advance::<S>(h, n).now == h.now + n * h.period,
        spec_advance::<S>(h, n).period == h.period,
        spec_advance::<S>(h, n).total_steps == h.total_steps,
        spec_advance::<S>(h, n).next_handle == h.next_handle,
        spec_advance::<S>(h, n).handles == h.handles,
        spec_advance::<S>(h, n).log == h.log,
        spec_advance::<S>(h, n).files == h.files,
        spec_advance::<S>(h, n).active == h.active,
        spec_advance::<S>(h, n).remote_enabled == h.remote_enabled,
        spec_advance::<S>(h, n).trace.len() == h.trace.len() + (if h.active {
            n as int
        } else {
            0
        }),
    decreases n,
{
    if n == 0 {
        assert(h.now + 0 * h.period == h.now) by (nonlinear_arith);
    } else {
        let h1 = spec_one_step::<S>(h);
        assert(h1.now == h.now + h.period);
        assert(h1.now == (h.steps_done + 1) * h.period && (h.steps_done + 1) * h.period
            <= h.total_steps * h.period) by (nonlinear_arith)
            requires
                h.now == h.steps_done * h.period,
                h1.now == h.now + h.period,
                h.steps_done + 1 <= h.total_steps,
                h.period >= 1,
        ;
        assert(spec_host_wf(h1));
        lemma_advance_props::<S>(h1, (n - 1) as nat);
        assert(h1.now + (n - 1) * h.period == h.now + n * h.period) by (nonlinear_arith)
            requires
                h1.now == h.now + h.period,
        ;
    }
}

/// Ceiling division on the step grid: how many whole periods cover `us`
/// microseconds, capped by the steps the run still has.
pub open spec fn spec_steps_for(h: HostModel, us: int) -> nat {
    let want = (us + h.period - 1) / h.period;
    let room = h.total_steps - h.steps_done;
    if want <= room {
        want as nat
    } else {
        room as nat
    }
}

/// Sleeping `us` microseconds: time advances to the first grid point at or
/// after `now + us`, but never past the run's entitlement.
pub open spec fn spec_sleep_for<S: SimulationStepper>(h: HostModel, us: int) -> HostModel {
    spec_advance::<S>(h, spec_steps_for(h, us))
}

/// Sleeping until an absolute time: a target in the past is an immediate
/// return.
pub open spec fn spec_sleep_until<S: SimulationStepper>(h: HostModel, t: int) -> HostModel {
    if t > h.now {
        spec_sleep_for::<S>(h, t - h.now)
    } else {
        h
    }
}

/// Waiting on the enable signal: observing the signal marks the run live;
/// while the signal stays low the wait runs the clock out.
pub open spec fn spec_wait_enabled<S: SimulationStepper>(h: HostModel) -> HostModel {
    let live = HostModel { active: true, ..h };
    if h.remote_enabled {
        live
    } else {
        spec_advance::<S>(live, (h.total_steps - h.steps_done) as nat)
    }
}

/// Waiting on the disable signal: observing the signal marks the run live;
/// while the signal stays high the wait runs the clock out.
pub open spec fn spec_wait_disabled<S: SimulationStepper>(h: HostModel) -> HostModel {
    let live = HostModel { active: true, ..h };
    if !h.remote_enabled {
        live
    } else {
        spec_advance::<S>(live, (h.total_steps - h.steps_done) as nat)
    }
}

/// Allocating a handle: the next handle names the new slot.
pub open spec fn spec_alloc<S: SimulationStepper>(h: HostModel, m: HandleModel) -> HostModel {
    HostModel {
        next_handle: h.next_handle + 1,
        handles: h.handles.insert(h.next_handle as u64, m),
        ..h
    }
}

/// The deadline of a relative sleep, saturated at the largest representable
/// time.
pub open spec fn spec_deadline_for(h: HostModel, us: int) -> int {
    if h.now + us <= u32::MAX {
        h.now + us
    } else {
        u32::MAX as int
    }
}

/// What `poll_timer` answers in a given state.
pub open spec fn spec_poll_timer(h: HostModel, handle: u64) -> Result<
    AsyncVoidResult,
    ReadError,
> {
    if !h.handles.dom().contains(handle) {
        Err(ReadError::InvalidHandle)
    } else {
        match h.handles[handle] {
            HandleModel::Sleep { deadline_us } => Ok(
                if h.now >= deadline_us {
                    AsyncVoidResult::Ready
                } else {
                    AsyncVoidResult::Blocked
                },
            ),
            _ => Err(ReadError::InvalidSensor),
        }
    }
}

/// The abstract answer of `poll_sensor`.
pub ghost enum AsyncSensorModel {
    Blocked,
    Ready { bytes: Seq<u8> },
}

/// What `poll_sensor` answers in a given state.
pub open spec fn spec_poll_sensor(h: HostModel, handle: u64) -> Result<
    AsyncSensorModel,
    ReadError,
> {
    if !h.handles.dom().contains(handle) {
        Err(ReadError::InvalidHandle)
    } else {
        match h.handles[handle] {
            HandleModel::Sensor { deadline_us, bytes } => Ok(
                if h.now >= deadline_us {
                    AsyncSensorModel::Ready { bytes }
                } else {
                    AsyncSensorModel::Blocked
                },
            ),
            HandleModel::SensorInvalid => Err(ReadError::InvalidRange),
            HandleModel::Sleep { .. } => Err(ReadError::InvalidSensor),
        }
    }
}

/// The host side of the guest ABI.  It owns the simulated-time counter, the
/// handle table, the recorder and the stepper; the guest owns only the
/// handle values.
pub struct BotHost<S: SimulationStepper> {
    stepper: S,
    step_period_us: u32,
    total_steps: u32,
    steps_done: u32,
    now_us: u32,
    handles: Vec<Option<HandleState>>,
    data: ExecutionData,
    remote_enabled: bool,
}

impl<S: SimulationStepper> BotHost<S> {
    /// The abstract state this host is in.
    pub closed spec fn model(&self) -> HostModel {
        HostModel {
            period: self.step_period_us as int,
            total_steps: self.total_steps as int,
            steps_done: self.steps_done as int,
            now: self.now_us as int,
            next_handle: self.handles@.len() as int,
            handles: spec_handles_map(self.handles@),
            trace: self.data.steps@,
            log: self.data.log@,
            files: self.data.files@,
            active: self.data.activity_data.started,
            remote_enabled: self.remote_enabled,
            stepper: self.stepper.model(),
        }
    }

    /// The recorder agrees with the host on the step period.
    pub closed spec fn wf_internal(&self) -> bool {
        self.data.step_period_us == self.step_period_us
    }

    /// Validity of the host: its model is valid and the recorder agrees on
    /// the step period.
    pub open spec fn wf(&self) -> bool {
        &&& spec_host_wf(self.model())
        &&& self.wf_internal()
    }

    /// A host at time zero over a fresh recorder.  The run is entitled to
    /// as many whole steps as cover `total_time_us`.
    pub fn new(
        stepper: S,
        total_time_us: u32,
        step_period_us: u32,
        force_initially_started: bool,
        remote_enabled: bool,
    ) -> (host: BotHost<S>)
        requires
            step_period_us >= 1,
            total_time_us <= u32::MAX - step_period_us + 1,
        ensures
            host.wf(),
            host.model().period == step_period_us as int,
            host.model().total_steps == (total_time_us + step_period_us - 1) as int
                / step_period_us as int,
            host.model().steps_done == 0,
            host.model().now == 0,
            host.model().next_handle == 0,
            host.model().handles == Map::<u64, HandleModel>::empty(),
            host.model().trace == Seq::<ExecutionStep>::empty(),
            host.model().log == Seq::<u8>::empty(),
            host.model().files == Seq::<FileArtifact>::empty(),
            host.model().active == force_initially_started,
            host.model().remote_enabled == remote_enabled,
            host.model().stepper == stepper.model(),
    {
        let total_steps_wide: u64 = (total_time_us as u64 + step_period_us as u64 - 1)
            / (step_period_us as u64);
        proof {
            let t = total_time_us as int;
            let p = step_period_us as int;
            vstd::arithmetic::div_mod::lemma_div_pos_is_pos(t + p - 1, p);
            vstd::arithmetic::div_mod::lemma_fundamental_div_mod(t + p - 1, p);
            vstd::arithmetic::div_mod::lemma_mod_bound(t + p - 1, p);
            assert(((t + p - 1) / p) * p == (t + p - 1) - (t + p - 1) % p);
            assert(((t + p - 1) / p) * p <= u32::MAX);
            assert((t + p - 1) / p <= t + p - 1) by {
                vstd::arithmetic::div_mod::lemma_div_is_ordered_by_denominator(t + p - 1, 1, p);
                vstd::arithmetic::div_mod::lemma_div_by_self(1);
            }
        }
        let total_steps: u32 = total_steps_wide as u32;
        let host = BotHost {
            stepper,
            step_period_us,
            total_steps,
            steps_done: 0,
            now_us: 0,
            handles: Vec::new(),
            data: ExecutionData::empty(step_period_us, force_initially_started),
            remote_enabled,
        };
        proof {
            assert(host.model().handles =~= Map::<u64, HandleModel>::empty());
            assert(host.model().now == host.model().steps_done * host.model().period);
        }
        host
    }

    /// Simulated time now, in microseconds.
    pub fn current_time(&self) -> (t: u32)
        ensures
            t as int == self.model().now,
    {
        self.now_us
    }

    /// Whether the run has consumed its whole entitlement of steps.
    pub fn time_exhausted(&self) -> (r: bool)
        ensures
            r == (self.model().steps_done == self.model().total_steps),
    {
        self.steps_done == self.total_steps
    }

    /// Whether the run has been marked live.
    pub fn is_active(&self) -> (r: bool)
        ensures
            r == self.model().active,
    {
        self.data.activity_data.is_active_now()
    }

    /// Runs `n` fixed steps: physics advances, time moves on the grid, and
    /// each step appends one trace record while the run is live.
    fn advance_steps(&mut self, n: u32)
        requires
            old(self).wf(),
            n <= old(self).model().total_steps - old(self).model().steps_done,
        ensures
            final(self).wf(),
            final(self).model() == spec_advance::<S>(old(self).model(), n as nat),
    {
        let ghost h0 = old(self).model();
        let mut i: u32 = 0;
        while i < n
            invariant
                i <= n,
                old(self).wf(),
                n <= h0.total_steps - h0.steps_done,
                h0 == old(self).model(),
                self.wf(),
                self.model() == spec_advance::<S>(h0, i as nat),
            decreases n - i,
        {
            proof {
                lemma_advance_props::<S>(h0, i as nat);
                lemma_advance_props::<S>(h0, (i + 1) as nat);
                lemma_advance_snoc::<S>(h0, i as nat);
                assert((self.steps_done as int + 1) * self.step_period_us as int
                    == self.steps_done as int * self.step_period_us as int
                    + self.step_period_us as int) by (nonlinear_arith);
                assert((self.steps_done as int + 1) * self.step_period_us as int
                    <= self.total_steps as int * self.step_period_us as int) by (nonlinear_arith)
                    requires
                        self.steps_done as int + 1 <= self.total_steps as int,
                        self.step_period_us >= 1,
                ;
            }
            self.stepper.step_once(self.step_period_us);
            self.steps_done = self.steps_done + 1;
            self.now_us = self.now_us + self.step_period_us;
            if self.data.activity_data.is_active_now() {
                let record = ExecutionStep {
                    time_us: self.now_us,
                    body_transform: self.stepper.body_pose(),
                    left_wheel_transform: self.stepper.wheel_pose(Side::Left),
                    right_wheel_transform: self.stepper.wheel_pose(Side::Right),
                    sensors_snapshot: self.stepper.sensors_snapshot(),
                    motor_commands: self.stepper.motors(),
                };
                self.data.push_step(record);
            }
            i = i + 1;
        }
    }

    /// How many steps a sleep of `us` microseconds takes from here: whole
    /// periods up to the grid point at or after the target, capped by the
    /// run's remaining entitlement.
    fn steps_for(&self, us: u32) -> (n: u32)
        requires
            self.wf(),
        ensures
            n as nat == spec_steps_for(self.model(), us as int),
            n <= self.model().total_steps - self.model().steps_done,
    {
        let p = self.step_period_us as u64;
        let want: u64 = (us as u64 + p - 1) / p;
        let room: u64 = (self.total_steps - self.steps_done) as u64;
        proof {
            let t = us as int;
            let pp = p as int;
            vstd::arithmetic::div_mod::lemma_div_pos_is_pos(t + pp - 1, pp);
        }
        if want <= room {
            want as u32
        } else {
            room as u32
        }
    }

    /// Sleeps for `us` microseconds of simulated time: the simulation is
    /// stepped to the first grid point at or after `now + us`, or to the end
    /// of the run's entitlement if that comes first.
    pub fn sleep_blocking_for(&mut self, us: u32)
        requires
            old(self).wf(),
        ensures
            final(self).wf(),
            final(self).model() == spec_sleep_for::<S>(old(self).model(), us as int),
            final(self).model().now >= old(self).model().now,
    {
        let n = self.steps_for(us);
        proof {
            lemma_advance_props::<S>(self.model(), n as nat);
            assert(self.model().now + n as int * self.model().period >= self.model().now)
                by (nonlinear_arith)
                requires
                    n >= 0,
                    self.model().period >= 1,
            ;
        }
        self.advance_steps(n);
    }

    /// Sleeps until simulated time `us`: a target at or before now returns
    /// immediately with no advance.
    pub fn sleep_blocking_until(&mut self, us: u32)
        requires
            old(self).wf(),
        ensures
            final(self).wf(),
            final(self).model() == spec_sleep_until::<S>(old(self).model(), us as int),
            final(self).model().now >= old(self).model().now,
    {
        if us > self.now_us {
            let delta = us - self.now_us;
            self.sleep_blocking_for(delta);
        }
    }

    /// Reads a sensor now.  Simulated sensors answer with no acquisition
    /// latency, so time does not advance; a range outside the kind's values
    /// is answered with `InvalidRange`, everything else with the packed
    /// bytes.
    pub fn read_sensor_blocking(&mut self, kind: SensorKind, range: SensorIndexRange) -> (r:
        Result<Vec<u8>, ReadError>)
        requires
            old(self).wf(),
        ensures
            final(self).wf(),
            final(self).model() == old(self).model(),
            r is Ok <==> spec_range_valid(kind, range),
            !spec_range_valid(kind, range) ==> r == Err::<Vec<u8>, ReadError>(
                ReadError::InvalidRange,
            ),
            r matches Ok(bytes) ==> bytes@ == spec_sensor_bytes(
                old(self).model().stepper.sensors,
                kind,
                range.start as int,
                range.count as nat,
            ),
    {
        if !range_valid(kind, range) {
            return Err(ReadError::InvalidRange);
        }
        let bytes = self.stepper.sample_sensors(kind, range);
        Ok(bytes)
    }

    /// Pushes one handle-table slot and hands out its handle.
    fn alloc_handle(&mut self, state: HandleState) -> (handle: u64)
        requires
            old(self).wf(),
            old(self).model().next_handle < u64::MAX,
        ensures
            final(self).wf(),
            final(self).model() == spec_alloc::<S>(old(self).model(), spec_handle_model(state)),
            handle as int == old(self).model().next_handle,
    {
        let ghost m0 = old(self).model();
        let handle = self.handles.len() as u64;
        self.handles.push(Some(state));
        proof {
            assert(self.model().handles =~= m0.handles.insert(handle, spec_handle_model(state)));
        }
        handle
    }

    /// Begins an asynchronous sleep of `us` microseconds: the handle becomes
    /// ready at `now + us`; no time passes now.
    pub fn sleep_async_for(&mut self, us: u32) -> (handle: u64)
        requires
            old(self).wf(),
            old(self).model().next_handle < u64::MAX,
        ensures
            final(self).wf(),
            final(self).model() == spec_alloc::<S>(
                old(self).model(),
                HandleModel::Sleep { deadline_us: spec_deadline_for(old(self).model(), us as int) },
            ),
            handle as int == old(self).model().next_handle,
    {
        let deadline: u32 = if us <= u32::MAX - self.now_us {
            self.now_us + us
        } else {
            u32::MAX
        };
        self.alloc_handle(HandleState::SleepUntil(deadline))
    }

    /// Begins an asynchronous sleep until absolute time `us`; a deadline in
    /// the past leaves the handle immediately ready.
    pub fn sleep_async_until(&mut self, us: u32) -> (handle: u64)
        requires
            old(self).wf(),
            old(self).model().next_handle < u64::MAX,
        ensures
            final(self).wf(),
            final(self).model() == spec_alloc::<S>(
                old(self).model(),
                HandleModel::Sleep { deadline_us: us as int },
            ),
            handle as int == old(self).model().next_handle,
    {
        self.alloc_handle(HandleState::SleepUntil(us))
    }

    /// Begins an asynchronous sensor read.  Simulated sensors have no
    /// acquisition latency, so the values are sampled now and the handle is
    /// ready at once; a bad range is remembered and reported at poll time.
    pub fn read_sensor_async(&mut self, kind: SensorKind, range: SensorIndexRange) -> (handle: u64)
        requires
            old(self).wf(),
            old(self).model().next_handle < u64::MAX,
        ensures
            final(self).wf(),
            final(self).model() == spec_alloc::<S>(
                old(self).model(),
                if spec_range_valid(kind, range) {
                    HandleModel::Sensor {
                        deadline_us: old(self).model().now,
                        bytes: spec_sensor_bytes(
                            old(self).model().stepper.sensors,
                            kind,
                            range.start as int,
                            range.count as nat,
                        ),
                    }
                } else {
                    HandleModel::SensorInvalid
                },
            ),
            handle as int == old(self).model().next_handle,
    {
        if !range_valid(kind, range) {
            return self.alloc_handle(HandleState::SensorInvalid);
        }
        let bytes = self.stepper.sample_sensors(kind, range);
        let deadline_us = self.now_us;
        self.alloc_handle(HandleState::SensorRead { deadline_us, bytes })
    }

    /// Answers whether a sleep handle has reached its deadline.  Polling
    /// never advances time; an unknown or forgotten handle is an
    /// `InvalidHandle`, a sensor handle an `InvalidSensor`.
    pub fn poll_timer(&self, handle: u64) -> (r: Result<AsyncVoidResult, ReadError>)
        requires
            self.wf(),
        ensures
            r == spec_poll_timer(self.model(), handle),
    {
        if handle >= self.handles.len() as u64 {
            return Err(ReadError::InvalidHandle);
        }
        match &self.handles[handle as usize] {
            Option::None => Err(ReadError::InvalidHandle),
            Option::Some(HandleState::SleepUntil(deadline)) => {
                if self.now_us >= *deadline {
                    Ok(AsyncVoidResult::Ready)
                } else {
                    Ok(AsyncVoidResult::Blocked)
                }
            },
            Option::Some(_) => Err(ReadError::InvalidSensor),
        }
    }

    /// Answers whether a sensor-read handle has reached its deadline, and on
    /// `Ready` hands out the values sampled when the read was issued.
    /// Polling never advances time; an unknown or forgotten handle is an
    /// `InvalidHandle`, a sleep handle an `InvalidSensor`, a read that named
    /// a bad range an `InvalidRange`.
    pub fn poll_sensor(&self, handle: u64) -> (r: Result<AsyncSensorResult, ReadError>)
        requires
            self.wf(),
        ensures
            match spec_poll_sensor(self.model(), handle) {
                Ok(AsyncSensorModel::Blocked) => r == Ok::<AsyncSensorResult, ReadError>(
                    AsyncSensorResult::Blocked,
                ),
                Ok(AsyncSensorModel::Ready { bytes }) => r matches Ok(
                    AsyncSensorResult::Ready(b),
                ) && b@ == bytes,
                Err(e) => r == Err::<AsyncSensorResult, ReadError>(e),
            },
    {
        if handle >= self.handles.len() as u64 {
            return Err(ReadError::InvalidHandle);
        }
        match &self.handles[handle as usize] {
            Option::None => Err(ReadError::InvalidHandle),
            Option::Some(HandleState::SensorRead { deadline_us, bytes }) => {
                if self.now_us >= *deadline_us {
                    Ok(AsyncSensorResult::Ready(copy_bytes(bytes)))
                } else {
                    Ok(AsyncSensorResult::Blocked)
                }
            },
            Option::Some(HandleState::SensorInvalid) => Err(ReadError::InvalidRange),
            Option::Some(HandleState::SleepUntil(_)) => Err(ReadError::InvalidSensor),
        }
    }

    /// Drops a handle; polling it afterwards is an `InvalidHandle`.
    /// Forgetting a handle that does not exist is silent.
    pub fn forget_handle(&mut self, handle: u64)
        requires
            old(self).wf(),
        ensures
            final(self).wf(),
            final(self).model() == (HostModel {
                handles: old(self).model().handles.remove(handle),
                ..old(self).model()
            }),
    {
        let ghost m0 = old(self).model();
        if handle < self.handles.len() as u64 {
            self.handles.set(handle as usize, None);
        }
        proof {
            assert(self.model().handles =~= m0.handles.remove(handle));
        }
    }

    /// Stores the motor command, clamped to `[PWM_MIN, PWM_MAX]`; it takes
    /// effect on the next fixed step.
    pub fn set_power(&mut self, left: i16, right: i16)
        requires
            old(self).wf(),
        ensures
            final(self).wf(),
            final(self).model() == (HostModel {
                stepper: old(self).model().stepper.with_motors(
                    spec_clamp_pwm(left as int) as i16,
                    spec_clamp_pwm(right as int) as i16,
                ),
                ..old(self).model()
            }),
    {
        let l = clamp_pwm(left);
        let r = clamp_pwm(right);
        self.stepper.set_motors(l, r);
    }

    /// Reads the remote-enable signal.  Observing the signal marks the run
    /// live: recording and motor torque begin with the first observation.
    pub fn get_enabled(&mut self) -> (enabled: bool)
        requires
            old(self).wf(),
        ensures
            final(self).wf(),
            final(self).model() == (HostModel { active: true, ..old(self).model() }),
            enabled == old(self).model().remote_enabled,
    {
        self.data.mark_started();
        self.remote_enabled
    }

    /// Waits for the remote-enable signal.  The signal is under the driver's
    /// control, not the simulation's: while it stays low the wait runs the
    /// run's clock out.  Waiting marks the run live either way.
    pub fn wait_enabled(&mut self)
        requires
            old(self).wf(),
        ensures
            final(self).wf(),
            final(self).model() == spec_wait_enabled::<S>(old(self).model()),
            final(self).model().now >= old(self).model().now,
    {
        self.data.mark_started();
        if !self.remote_enabled {
            let room = self.total_steps - self.steps_done;
            proof {
                lemma_advance_props::<S>(self.model(), room as nat);
                assert(self.model().now + room as int * self.model().period >= self.model().now)
                    by (nonlinear_arith)
                    requires
                        room >= 0,
                        self.model().period >= 1,
                ;
            }
            self.advance_steps(room);
        }
    }

    /// Waits for the remote-enable signal to drop; the mirror image of
    /// `wait_enabled`.
    pub fn wait_disabled(&mut self)
        requires
            old(self).wf(),
        ensures
            final(self).wf(),
            final(self).model() == spec_wait_disabled::<S>(old(self).model()),
            final(self).model().now >= old(self).model().now,
    {
        self.data.mark_started();
        if self.remote_enabled {
            let room = self.total_steps - self.steps_done;
            proof {
                lemma_advance_props::<S>(self.model(), room as nat);
                assert(self.model().now + room as int * self.model().period >= self.model().now)
                    by (nonlinear_arith)
                    requires
                        room >= 0,
                        self.model().period >= 1,
                ;
            }
            self.advance_steps(room);
        }
    }

    /// Sets the remote-enable signal; the driver's side of the remote, not a
    /// guest operation.
    pub fn set_remote_enabled(&mut self, enabled: bool)
        requires
            old(self).wf(),
        ensures
            final(self).wf(),
            final(self).model() == (HostModel { remote_enabled: enabled, ..old(self).model() }),
    {
        self.remote_enabled = enabled;
    }

    /// Appends one line to the guest log.
    pub fn write_line(&mut self, text: &str)
        requires
            old(self).wf(),
        ensures
            final(self).wf(),
            final(self).model() == (HostModel {
                log: old(self).model().log + text.spec_bytes() + seq![10u8],
                ..old(self).model()
            }),
    {
        self.data.append_log_line(text);
    }

    /// Registers one output artifact.
    pub fn write_file(&mut self, file: FileArtifact)
        requires
            old(self).wf(),
        ensures
            final(self).wf(),
            final(self).model() == (HostModel {
                files: old(self).model().files.push(file),
                ..old(self).model()
            }),
    {
        self.data.add_file(file);
    }

    /// Hands the accumulated run data out, consuming the host.
    pub fn into_execution_data(self) -> (data: ExecutionData)
        requires
            self.wf(),
        ensures
            data.steps@ == self.model().trace,
            data.log@ == self.model().log,
            data.files@ == self.model().files,
            data.activity_data.started == self.model().active,
    {
        self.data
    }
}

/// A fresh copy of a byte vector.
fn copy_bytes(src: &Vec<u8>) -> (out: Vec<u8>)
    ensures
        out@ == src@,
{
    let mut out: Vec<u8> = Vec::new();
    let mut i: usize = 0;
    while i < src.len()
        invariant
            i <= src@.len(),
            out@ =~= src@.subrange(0, i as int),
        decreases src@.len() - i,
    {
        out.push(src[i]);
        i = i + 1;
    }
    proof {
        assert(out@ =~= src@);
    }
    out
}

/// A PWM value pulled back into `[PWM_MIN, PWM_MAX]`.
pub fn clamp_pwm(pwm: i16) -> (r: i16)
    ensures
        r as int == spec_clamp_pwm(pwm as int),
{
    if pwm < PWM_MIN {
        PWM_MIN
    } else if pwm > PWM_MAX {
        PWM_MAX
    } else {
        pwm
    }
}

} // verus!
