//! Per-channel LED control: the target state written by the dispatcher, the
//! textual state form, and the controller loop's decisions — which output
//! action to perform and which wait to race against the channel's wake
//! signal.

use vstd::prelude::*;

use crate::parse::{parse_u32, spec_parse_u32};
use vstd::string::StringSliceAdditionalSpecFns;

verus! {

/// Target state of one LED channel.
#[derive(Clone, Copy, Debug, PartialEq, Eq, Structural)]
pub enum LedState {
    /// The LED is held on or off.
    Manual(bool),
    /// The LED flips once every given number of milliseconds.
    Toggle(u32),
}

impl Default for LedState {
    /// A channel starts dark.
    fn default() -> (r: Self)
        ensures
            r == LedState::Manual(false),
    {
        LedState::Manual(false)
    }
}

/// What the textual form of an LED state parses to: `off` and `on` are the
/// two manual levels; a decimal number is a toggle period in milliseconds.
pub open spec fn spec_led_state(w: Seq<u8>) -> Option<LedState> {
    if w == "off".spec_bytes() {
        Some(LedState::Manual(false))
    } else if w == "on".spec_bytes() {
        Some(LedState::Manual(true))
    } else {
        match spec_parse_u32(w) {
            Some(ms) => Some(LedState::Toggle(ms)),
            None => None,
        }
    }
}

/// Parses the textual form of an LED state, given as bytes.
pub fn led_state_from_bytes(w: &[u8]) -> (r: Option<LedState>)
    ensures
        r == spec_led_state(w@),
{
    if crate::parse::bytes_eq(w, "off".as_bytes()) {
        Some(LedState::Manual(false))
    } else if crate::parse::bytes_eq(w, "on".as_bytes()) {
        Some(LedState::Manual(true))
    } else {
        match parse_u32(w) {
            Some(ms) => Some(LedState::Toggle(ms)),
            None => None,
        }
    }
}

/// Parses the textual form of an LED state.
pub fn str_to_led_state(txt: &str) -> (r: Option<LedState>)
    ensures
        r == spec_led_state(txt.spec_bytes()),
{
    led_state_from_bytes(txt.as_bytes())
}

/// The hardware action a controller performs when it picks up a state.
#[derive(Clone, Copy, Debug, PartialEq, Eq, Structural)]
pub enum LedAction {
    /// Drive the output to the given level.
    SetLevel(bool),
    /// Invert the current output level.
    FlipLevel,
}

/// The wait a controller enters after applying a state, raced against the
/// channel's wake signal.
#[derive(Clone, Copy, Debug, PartialEq, Eq, Structural)]
pub enum LedWait {
    /// Block on the wake signal alone.
    UntilSignal,
    /// Race a timer of the given number of milliseconds against the signal.
    TimerOrSignal(u32),
}

/// The action a state calls for: manual states pin the level, toggle states
/// flip it once per pass through the loop.
pub open spec fn spec_led_action(state: LedState) -> LedAction {
    match state {
        LedState::Manual(level) => LedAction::SetLevel(level),
        LedState::Toggle(_) => LedAction::FlipLevel,
    }
}

/// The wait a state calls for: toggle states sleep one period (so the next
/// pass flips again), manual states wait for the next command.
pub open spec fn spec_led_wait(state: LedState) -> LedWait {
    match state {
        LedState::Manual(_) => LedWait::UntilSignal,
        LedState::Toggle(ms) => LedWait::TimerOrSignal(ms),
    }
}

/// One pass of the controller loop: the action to apply to the output and
/// the wait to race against the channel's wake signal. On a timer expiry the
/// caller loops with the state unchanged; on a signal it re-reads the state.
pub fn led_step(state: &LedState) -> (r: (LedAction, LedWait))
    ensures
        r.0 == spec_led_action(*state),
        r.1 == spec_led_wait(*state),
{
    match state {
        LedState::Manual(level) => (LedAction::SetLevel(*level), LedWait::UntilSignal),
        LedState::Toggle(ms) => (LedAction::FlipLevel, LedWait::TimerOrSignal(*ms)),
    }
}

/// The output level after an action is applied to a line at `level`.
pub open spec fn spec_apply_action(level: bool, action: LedAction) -> bool {
    match action {
        LedAction::SetLevel(l) => l,
        LedAction::FlipLevel => !level,
    }
}

/// Applies an action to an output line held at `level`, returning the new
/// level the hardware line must show.
pub fn apply_led_action(level: bool, action: &LedAction) -> (r: bool)
    ensures
        r == spec_apply_action(level, *action),
{
    match action {
        LedAction::SetLevel(l) => *l,
        LedAction::FlipLevel => !level,
    }
}

/// A toggle channel left undisturbed: starting at `level` with period
/// `period`, over `d` milliseconds the loop flips once per full period.
/// Returns the number of flips and the final level.
pub open spec fn spec_toggle_run(level: bool, period: nat, d: nat) -> (nat, bool)
    decreases d when period > 0
{
    if d < period {
        (0, level)
    } else {
        let rest = spec_toggle_run(!level, period, (d - period) as nat);
        ((rest.0 + 1) as nat, rest.1)
    }
}

/// A `Toggle(period)` state left undisturbed for `d` milliseconds flips the
/// output exactly `d / period` times — never early, and a flip is never
/// skipped while no new command preempts the wait.
pub proof fn lemma_toggle_flip_count(level: bool, period: nat, d: nat)
    requires
        period > 0,
    ensures
        spec_toggle_run(level, period, d).0 == d / period,
    decreases d,
{
    if d < period {
        vstd::arithmetic::div_mod::lemma_basic_div(d as int, period as int);
    } else {
        lemma_toggle_flip_count(!level, period, (d - period) as nat);
        vstd::arithmetic::div_mod::lemma_div_plus_one((d - period) as int, period as int);
    }
}

/// Runs the undisturbed-toggle model: the number of flips over `duration`
/// milliseconds and the final output level.
pub fn toggle_run(level: bool, period: u32, duration: u64) -> (r: (u64, bool))
    requires
        period > 0,
    ensures
        (r.0 as nat, r.1) == spec_toggle_run(level, period as nat, duration as nat),
        r.0 == duration as nat / period as nat,
{
    let mut l = level;
    let mut rem = duration;
    let mut flips: u64 = 0;
    while rem >= period as u64
        invariant
            period > 0,
            flips + rem <= duration,
            spec_toggle_run(level, period as nat, duration as nat) == {
                let rest = spec_toggle_run(l, period as nat, rem as nat);
                ((flips + rest.0) as nat, rest.1)
            },
        decreases rem,
    {
        rem = rem - period as u64;
        flips = flips + 1;
        l = !l;
    }
    proof {
        lemma_toggle_flip_count(level, period as nat, duration as nat);
    }
    (flips, l)
}

} // verus!
