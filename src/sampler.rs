//! The decisions of the background sampling loop. The loop itself (locking,
//! probing the host, sleeping) runs outside; each pass hands the outcome here
//! and performs the action that comes back.
use crate::state::{
    applied, outcome_of, unchanged, AppState, Metric, Readings, SYSTEM_INFO_INIT_INTERVAL,
};
use vstd::prelude::*;

verus! {

/// What one pass of the loop observed.
pub enum SamplerEvent {
    /// The host snapshot could not be locked: the tick is skipped.
    SnapshotLockFailed,
    /// The probes were read.
    Sampled(Readings),
    /// Shutdown was asked for.
    StopRequested,
}

/// What the loop does next.
#[derive(Clone, Copy, Debug, PartialEq, Eq)]
pub enum SamplerAction {
    /// Sleep for this many seconds, then sample again.
    SleepThenSample(u64),
    /// Leave the loop.
    Stop,
}

/// Handles one pass of the sampling loop: readings are recorded as
/// `AppState::tick` does; a failed lock leaves the state untouched and waits
/// for the next interval instead of retrying at once.
pub fn sampler_step(state: &mut AppState, event: SamplerEvent) -> (action: SamplerAction)
    requires
        old(state).wf(),
    ensures
        final(state).wf(),
        forall|m: Metric| final(state).cap_of(m) == old(state).cap_of(m),
        match event {
            SamplerEvent::StopRequested => action == SamplerAction::Stop && unchanged(
                old(state),
                final(state),
            ),
            SamplerEvent::SnapshotLockFailed => action == SamplerAction::SleepThenSample(
                SYSTEM_INFO_INIT_INTERVAL,
            ) && unchanged(old(state), final(state)),
            SamplerEvent::Sampled(readings) => action == SamplerAction::SleepThenSample(
                SYSTEM_INFO_INIT_INTERVAL,
            ) && forall|m: Metric|
                applied(old(state), final(state), m, #[trigger] outcome_of(&readings, m)),
        },
{
    match event {
        SamplerEvent::StopRequested => SamplerAction::Stop,
        SamplerEvent::SnapshotLockFailed => SamplerAction::SleepThenSample(
            SYSTEM_INFO_INIT_INTERVAL,
        ),
        SamplerEvent::Sampled(readings) => {
            state.tick(&readings);
            SamplerAction::SleepThenSample(SYSTEM_INFO_INIT_INTERVAL)
        },
    }
}

} // verus!
