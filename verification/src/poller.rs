//! The background poller's per-iteration decisions. The poller loops
//! forever: it reads the sensor's operating mode, and either races a two-byte
//! bus read against the light-sensor wake signal (continuous mode) or blocks
//! on the signal alone (any other mode, without touching the bus). The race
//! is the system's cancellation mechanism: a command that changes the mode
//! fires the signal, so a poll in flight is abandoned and the new mode takes
//! effect within one iteration.

use vstd::prelude::*;

use crate::bh1750fvi::{reading_from_bytes, spec_reading, BusEvent, LightSensorState};
use crate::cmd::{Commands, LightSensorCommands};
use crate::dispatch::{spec_dispatch_fired, spec_dispatch_state, SignalId, SystemState};

verus! {

/// How long the poller sleeps after a completed continuous read, in
/// milliseconds.
pub const POLL_INTERVAL_MS: u64 = 150;

/// What a poll iteration does, decided from the operating mode alone.
#[derive(Clone, Copy, Debug, PartialEq, Eq, Structural)]
pub enum PollerAction {
    /// Acquire the bus and race a two-byte read against the wake signal.
    ReadRace,
    /// Do not touch the bus; block on the wake signal until the mode
    /// changes.
    WaitForSignal,
}

/// The iteration a mode calls for: only continuous measurement reads the
/// bus.
pub open spec fn spec_poller_action(state: LightSensorState) -> PollerAction {
    match state {
        LightSensorState::ContiniousMeasurement => PollerAction::ReadRace,
        _ => PollerAction::WaitForSignal,
    }
}

/// Decides one poll iteration from the sensor's operating mode.
pub fn poller_step(state: &LightSensorState) -> (a: PollerAction)
    ensures
        a == spec_poller_action(*state),
{
    match state {
        LightSensorState::ContiniousMeasurement => PollerAction::ReadRace,
        _ => PollerAction::WaitForSignal,
    }
}

/// How the race of a bus read against the wake signal ended.
#[derive(Clone, Copy, Debug, PartialEq, Eq, Structural)]
pub enum RaceOutcome {
    /// The read completed first, with these two bytes.
    ReadDone(u8, u8),
    /// The read failed before the signal fired.
    ReadFailed,
    /// The signal fired first; the read was abandoned.
    Signalled,
}

/// What the poller does after the race.
#[derive(Clone, Copy, Debug, PartialEq, Eq, Structural)]
pub enum PollerFollowup {
    /// Sleep one poll interval, then loop.
    SleepPollInterval,
    /// Loop immediately, so the new mode takes effect within one iteration.
    Reloop,
}

/// The reading stored after a race: a completed read stores its value
/// (last-writer-wins), a failed or abandoned read keeps the previous one.
pub open spec fn spec_poll_value(outcome: RaceOutcome, value: Option<u16>) -> Option<u16> {
    match outcome {
        RaceOutcome::ReadDone(b0, b1) => Some(spec_reading(b0, b1)),
        _ => value,
    }
}

/// The follow-up a race outcome calls for: only a preempting signal skips
/// the poll interval.
pub open spec fn spec_poll_followup(outcome: RaceOutcome) -> PollerFollowup {
    match outcome {
        RaceOutcome::Signalled => PollerFollowup::Reloop,
        _ => PollerFollowup::SleepPollInterval,
    }
}

/// Handles the end of a continuous-read race: the reading to store and what
/// to do next. An abandoned iteration stores nothing and re-reads the mode at
/// once.
pub fn poller_on_race(outcome: &RaceOutcome, value: &Option<u16>) -> (r: (
    Option<u16>,
    PollerFollowup,
))
    ensures
        r.0 == spec_poll_value(*outcome, *value),
        r.1 == spec_poll_followup(*outcome),
{
    match outcome {
        RaceOutcome::ReadDone(b0, b1) => (
            Some(reading_from_bytes(*b0, *b1)),
            PollerFollowup::SleepPollInterval,
        ),
        RaceOutcome::ReadFailed => (*value, PollerFollowup::SleepPollInterval),
        RaceOutcome::Signalled => (*value, PollerFollowup::Reloop),
    }
}

/// Issuing `Off` or a single measurement while continuous sampling is active
/// stops the polling within one iteration: the dispatcher fires the wake
/// signal — aborting a read in flight — and leaves the sensor in a mode
/// whose next poll iteration never touches the bus.
pub proof fn lemma_off_or_single_stops_polling(
    s: SystemState,
    sub: LightSensorCommands,
    ev: Seq<BusEvent>,
)
    requires
        sub == LightSensorCommands::Off || sub == LightSensorCommands::SingleMeasurment,
    ensures
        spec_poller_action(
            spec_dispatch_state(s, Commands::LightSensor(sub), ev).light_state,
        ) == PollerAction::WaitForSignal,
        spec_dispatch_fired(Commands::LightSensor(sub)) == seq![SignalId::Light],
{
}

} // verus!
