//! Bounded telemetry history and the per-tick rules of a host resource sampler.
use vstd::prelude::*;

pub mod ring;
pub mod sampler;
pub mod sensor;
pub mod state;

pub use ring::HistoryRing;
pub use sampler::{sampler_step, SamplerAction, SamplerEvent};
pub use sensor::{cpu_percent, gpu_percent, memory_percent, SensorError};
pub use state::{
    get_cpu_usage, get_cpu_usage_history, get_gpu_usage, get_gpu_usage_history, get_memory_usage,
    get_memory_usage_history, AppState, Metric, MetricState, Readings, HISTORY_CAPACITY,
    SYSTEM_INFO_INIT_INTERVAL,
};

verus! {

} // verus!
