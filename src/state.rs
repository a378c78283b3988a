//! The sampler's shared state: the current value and the history of each metric,
//! the rule that applies one tick of readings, and the read-only accessors.
use crate::ring::{keep_last, newest_first, HistoryRing};
use crate::sensor::{
    cpu_percent, cpu_spec, gpu_percent, gpu_spec, is_percentage, memory_percent, memory_spec,
    SensorError,
};
use vstd::prelude::*;

verus! {

/// Seconds between two sampling ticks.
pub const SYSTEM_INFO_INIT_INTERVAL: u64 = 1;

/// Number of samples kept per metric.
pub const HISTORY_CAPACITY: usize = 60;

/// One monitored resource.
#[derive(Clone, Copy, Debug, PartialEq, Eq)]
pub enum Metric {
    Cpu,
    Memory,
    Gpu,
}

/// What one tick does to a metric, given its sensor's outcome: a sample is
/// recorded, `0` stands in when no hardware is there, and a failed read leaves
/// the metric as it was.
pub open spec fn recorded(r: Result<u32, SensorError>) -> Option<u32> {
    match r {
        Ok(v) => Some(v),
        Err(SensorError::SensorUnavailable) => Some(0),
        Err(SensorError::SensorReadFailure) => None,
    }
}

/// The raw readings of one tick, as the probes report them.
pub struct Readings {
    /// Per-core CPU usage, in hundredths of a percent.
    pub per_core: Vec<u32>,
    pub used_memory: u64,
    pub total_memory: u64,
    /// Graphics utilisation of each GPU (`None` where a device has no such
    /// domain), or the error of the device query.
    pub gpu: Result<Vec<Option<u32>>, SensorError>,
}

/// The outcome of the GPU probe for `g`.
pub open spec fn gpu_outcome(g: Result<Vec<Option<u32>>, SensorError>) -> Result<u32, SensorError> {
    match g {
        Ok(d) => gpu_spec(d@),
        Err(e) => Err(e),
    }
}

/// The sensor outcome for `m` from the raw readings of one tick.
pub open spec fn outcome_of(readings: &Readings, m: Metric) -> Result<u32, SensorError> {
    match m {
        Metric::Cpu => cpu_spec(readings.per_core@),
        Metric::Memory => memory_spec(readings.used_memory, readings.total_memory),
        Metric::Gpu => gpu_outcome(readings.gpu),
    }
}

/// `after` is `before` with `m` updated as `recorded(r)` says: a recorded
/// sample becomes the current value and is pushed onto the history; otherwise
/// both stay as they were.
pub open spec fn applied(
    before: &AppState,
    after: &AppState,
    m: Metric,
    r: Result<u32, SensorError>,
) -> bool {
    match recorded(r) {
        Some(v) => after.current_of(m) == v && after.history_of(m) == keep_last(
            before.history_of(m).push(v),
            before.cap_of(m),
        ),
        None => after.current_of(m) == before.current_of(m) && after.history_of(m)
            == before.history_of(m),
    }
}

/// `after` holds the same values and histories as `before`.
pub open spec fn unchanged(before: &AppState, after: &AppState) -> bool {
    forall|m: Metric|
        after.current_of(m) == before.current_of(m) && after.history_of(m) == before.history_of(m)
}

/// Current value and history of one metric.
pub struct MetricState {
    current: u32,
    history: HistoryRing,
}

impl MetricState {
    pub closed spec fn current_spec(&self) -> u32 {
        self.current
    }

    pub closed spec fn history_spec(&self) -> Seq<u32> {
        self.history@
    }

    pub closed spec fn cap(&self) -> nat {
        self.history.cap()
    }

    /// The history is within capacity and every value is a percentage.
    pub closed spec fn wf(&self) -> bool {
        &&& self.history.wf()
        &&& self.current <= 100
        &&& forall|i: int| 0 <= i < self.history@.len() ==> self.history@[i] <= 100
    }

    pub fn new(capacity: usize) -> (r: MetricState)
        ensures
            r.wf(),
            r.current_spec() == 0,
            r.history_spec() == Seq::<u32>::empty(),
            r.cap() == capacity,
    {
        MetricState { current: 0, history: HistoryRing::new(capacity) }
    }

    /// Sets the current value to `v` and appends it to the history.
    pub fn record(&mut self, v: u32)
        requires
            old(self).wf(),
            v <= 100,
        ensures
            final(self).wf(),
            final(self).cap() == old(self).cap(),
            final(self).current_spec() == v,
            final(self).history_spec() == keep_last(
                old(self).history_spec().push(v),
                old(self).cap(),
            ),
    {
        self.current = v;
        self.history.push(v);
        proof {
            let o = old(self).history@.push(v);
            assert forall|i: int| 0 <= i < self.history@.len() implies self.history@[i] <= 100 by {
                if o.len() > old(self).cap() {
                    assert(self.history@[i] == o[i + o.len() - old(self).cap()]);
                }
            }
        }
    }

    /// Records the outcome of a sensor as `recorded` says.
    pub fn apply(&mut self, r: Result<u32, SensorError>)
        requires
            old(self).wf(),
            is_percentage(r),
        ensures
            final(self).wf(),
            final(self).cap() == old(self).cap(),
            match recorded(r) {
                Some(v) => final(self).current_spec() == v && final(self).history_spec()
                    == keep_last(old(self).history_spec().push(v), old(self).cap()),
                None => final(self).current_spec() == old(self).current_spec()
                    && final(self).history_spec() == old(self).history_spec(),
            },
    {
        match r {
            Ok(v) => self.record(v),
            Err(SensorError::SensorUnavailable) => self.record(0),
            Err(SensorError::SensorReadFailure) => {},
        }
    }

    pub fn current(&self) -> (r: u32)
        ensures
            r == self.current_spec(),
    {
        self.current
    }

    /// The most recent `min(n, held)` samples, newest first.
    pub fn history(&self, n: usize) -> (r: Vec<u32>)
        requires
            self.wf(),
        ensures
            r@ == newest_first(self.history_spec(), n as nat),
    {
        self.history.snapshot_tail(n)
    }
}

/// Current values and histories of CPU, memory and GPU usage.
pub struct AppState {
    cpu: MetricState,
    memory: MetricState,
    gpu: MetricState,
}

impl AppState {
    pub closed spec fn metric(&self, m: Metric) -> MetricState {
        match m {
            Metric::Cpu => self.cpu,
            Metric::Memory => self.memory,
            Metric::Gpu => self.gpu,
        }
    }

    /// The current value of `m`.
    pub open spec fn current_of(&self, m: Metric) -> u32 {
        self.metric(m).current_spec()
    }

    /// The history of `m`, oldest first.
    pub open spec fn history_of(&self, m: Metric) -> Seq<u32> {
        self.metric(m).history_spec()
    }

    /// The history capacity of `m`.
    pub open spec fn cap_of(&self, m: Metric) -> nat {
        self.metric(m).cap()
    }

    pub open spec fn wf(&self) -> bool {
        &&& self.metric(Metric::Cpu).wf()
        &&& self.metric(Metric::Memory).wf()
        &&& self.metric(Metric::Gpu).wf()
    }

    /// All values 0 and all histories empty, each holding at most `capacity`.
    pub fn with_capacity(capacity: usize) -> (r: AppState)
        ensures
            r.wf(),
            forall|m: Metric|
                r.current_of(m) == 0 && r.history_of(m) == Seq::<u32>::empty() && r.cap_of(m)
                    == capacity,
    {
        AppState {
            cpu: MetricState::new(capacity),
            memory: MetricState::new(capacity),
            gpu: MetricState::new(capacity),
        }
    }

    /// The state at startup, keeping `HISTORY_CAPACITY` samples per metric.
    pub fn new() -> (r: AppState)
        ensures
            r.wf(),
            forall|m: Metric|
                r.current_of(m) == 0 && r.history_of(m) == Seq::<u32>::empty() && r.cap_of(m)
                    == HISTORY_CAPACITY,
    {
        AppState::with_capacity(HISTORY_CAPACITY)
    }

    /// Applies the sensor outcomes of one tick, each metric on its own: a
    /// failure of one never holds back the others.
    pub fn record_tick(
        &mut self,
        cpu: Result<u32, SensorError>,
        memory: Result<u32, SensorError>,
        gpu: Result<u32, SensorError>,
    )
        requires
            old(self).wf(),
            is_percentage(cpu),
            is_percentage(memory),
            is_percentage(gpu),
        ensures
            final(self).wf(),
            forall|m: Metric| final(self).cap_of(m) == old(self).cap_of(m),
            applied(old(self), final(self), Metric::Cpu, cpu),
            applied(old(self), final(self), Metric::Memory, memory),
            applied(old(self), final(self), Metric::Gpu, gpu),
    {
        self.cpu.apply(cpu);
        self.memory.apply(memory);
        self.gpu.apply(gpu);
    }

    /// One sampling tick: computes each metric's percentage from the raw
    /// readings and records it as `record_tick` does.
    pub fn tick(&mut self, readings: &Readings)
        requires
            old(self).wf(),
        ensures
            final(self).wf(),
            forall|m: Metric| final(self).cap_of(m) == old(self).cap_of(m),
            forall|m: Metric| applied(old(self), final(self), m, #[trigger] outcome_of(readings, m)),
    {
        let cpu = cpu_percent(&readings.per_core);
        let memory = memory_percent(readings.used_memory, readings.total_memory);
        let gpu = match &readings.gpu {
            Ok(d) => gpu_percent(d),
            Err(e) => Err(*e),
        };
        self.record_tick(cpu, memory, gpu);
    }

    /// The current value of `m`, a whole percentage.
    pub fn current(&self, m: Metric) -> (r: i32)
        requires
            self.wf(),
        ensures
            r == self.current_of(m),
            0 <= r <= 100,
    {
        let v = match m {
            Metric::Cpu => self.cpu.current(),
            Metric::Memory => self.memory.current(),
            Metric::Gpu => self.gpu.current(),
        };
        v as i32
    }

    /// The last `min(seconds, held)` samples of `m`, newest first.
    pub fn history(&self, m: Metric, seconds: usize) -> (r: Vec<u32>)
        requires
            self.wf(),
        ensures
            r@ == newest_first(self.history_of(m), seconds as nat),
            r@.len() <= self.cap_of(m),
    {
        proof {
            self.metric(m).history.lemma_bounded();
        }
        match m {
            Metric::Cpu => self.cpu.history(seconds),
            Metric::Memory => self.memory.history(seconds),
            Metric::Gpu => self.gpu.history(seconds),
        }
    }
}

/// Current CPU usage (%).
pub fn get_cpu_usage(state: &AppState) -> (r: i32)
    requires
        state.wf(),
    ensures
        r == state.current_of(Metric::Cpu),
        0 <= r <= 100,
{
    state.current(Metric::Cpu)
}

/// Current memory usage (%).
pub fn get_memory_usage(state: &AppState) -> (r: i32)
    requires
        state.wf(),
    ensures
        r == state.current_of(Metric::Memory),
        0 <= r <= 100,
{
    state.current(Metric::Memory)
}

/// Current GPU usage (%); 0 while no GPU reports one.
pub fn get_gpu_usage(state: &AppState) -> (r: i32)
    requires
        state.wf(),
    ensures
        r == state.current_of(Metric::Gpu),
        0 <= r <= 100,
{
    state.current(Metric::Gpu)
}

/// CPU usage over the last `seconds` ticks, newest first.
pub fn get_cpu_usage_history(state: &AppState, seconds: usize) -> (r: Vec<u32>)
    requires
        state.wf(),
    ensures
        r@ == newest_first(state.history_of(Metric::Cpu), seconds as nat),
{
    state.history(Metric::Cpu, seconds)
}

/// Memory usage over the last `seconds` ticks, newest first.
pub fn get_memory_usage_history(state: &AppState, seconds: usize) -> (r: Vec<u32>)
    requires
        state.wf(),
    ensures
        r@ == newest_first(state.history_of(Metric::Memory), seconds as nat),
{
    state.history(Metric::Memory, seconds)
}

/// GPU usage over the last `seconds` ticks, newest first.
pub fn get_gpu_usage_history(state: &AppState, seconds: usize) -> (r: Vec<u32>)
    requires
        state.wf(),
    ensures
        r@ == newest_first(state.history_of(Metric::Gpu), seconds as nat),
{
    state.history(Metric::Gpu, seconds)
}

} // verus!
