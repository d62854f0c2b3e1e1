//! The command dispatcher: the single consumer of the command queue. For
//! each command it writes the affected shared state, fires the matching wake
//! signal, and — for light-sensor commands — runs the opcode sequence on the
//! shared bus.
//!
//! The shared state cells live together in one [`SystemState`] registry
//! constructed once at startup; the dispatcher is its only writer, each
//! controller loop reads only its own cell. The caller owns the loop around
//! [`dispatch_command`]: it receives a command, performs the returned bus
//! operations under the bus-owner lock (feeding their outcomes in as the
//! transcript), fires the returned signals after the state is written, and
//! moves on. A bus failure aborts that command's hardware sequence, leaves
//! the state as already written, and is never fatal: the next command is
//! handled normally.

use vstd::prelude::*;

use crate::bh1750fvi::{
    continious_measurement, power_off, single_measurement, spec_continious_ops,
    spec_power_off_ops, spec_single_ops, spec_single_result, BusEvent, BusOp, LightSensorState,
};
use crate::cmd::{Commands, LightSensorCommands};
use crate::led::LedState;

verus! {

/// The registry of shared state cells, created once at startup. Each field
/// is one cell: written only by the dispatcher, read by its owning task.
#[derive(Clone, Copy, Debug, PartialEq, Eq, Structural)]
pub struct SystemState {
    /// Interval of the periodic status report, in milliseconds.
    pub status_interval_ms: u32,
    /// Target state of the red LED channel (id 1).
    pub led_red: LedState,
    /// Target state of the green LED channel (id 2).
    pub led_green: LedState,
    /// Target state of the blue LED channel (id 3).
    pub led_blue: LedState,
    /// The light sensor's last commanded operating mode.
    pub light_state: LightSensorState,
    /// The last stored lux reading; none until the first success.
    pub light_value: Option<u16>,
}

/// The wake signals the dispatcher can fire, one per peripheral task.
#[derive(Clone, Copy, Debug, PartialEq, Eq, Structural)]
pub enum SignalId {
    /// Wakes the red LED's controller loop.
    Red,
    /// Wakes the green LED's controller loop.
    Green,
    /// Wakes the blue LED's controller loop.
    Blue,
    /// Wakes — and thereby preempts — the light-sensor poller.
    Light,
}

/// The state every cell starts in: no report pending for ten seconds, all
/// LEDs dark, the sensor off, no reading yet.
pub open spec fn spec_initial_state() -> SystemState {
    SystemState {
        status_interval_ms: 10000,
        led_red: LedState::Manual(false),
        led_green: LedState::Manual(false),
        led_blue: LedState::Manual(false),
        light_state: LightSensorState::PowerOff,
        light_value: None,
    }
}

/// The registry as it stands at startup.
pub fn initial_state() -> (s: SystemState)
    ensures
        s == spec_initial_state(),
{
    SystemState {
        status_interval_ms: 10000,
        led_red: LedState::Manual(false),
        led_green: LedState::Manual(false),
        led_blue: LedState::Manual(false),
        light_state: LightSensorState::PowerOff,
        light_value: None,
    }
}

/// The target state of the LED channel with the given id.
pub open spec fn spec_led_channel(s: SystemState, id: u8) -> LedState
    recommends
        1 <= id <= 3,
{
    if id == 1 {
        s.led_red
    } else if id == 2 {
        s.led_green
    } else {
        s.led_blue
    }
}

/// The shared state after one command is dispatched, given the transcript of
/// bus outcomes for the command's hardware sequence.
///
/// - A report-interval command stores the new interval.
/// - An LED command writes the addressed channel's cell; an unknown id
///   changes nothing.
/// - `Off` records the power-off intent, whatever the bus says.
/// - A single measurement records the in-progress intent first; on success
///   the reading is stored and the intent returns to off, on failure the
///   sequence aborts where it stands: the intent stays as written and the
///   previous reading is kept (a failed refresh is not a dark-room reading).
/// - A continuous command records the free-running intent, whatever the bus
///   says.
/// - The reserved temperature command changes nothing.
pub open spec fn spec_dispatch_state(s: SystemState, cmd: Commands, ev: Seq<BusEvent>) -> SystemState {
    match cmd {
        Commands::UartStatusReport(ms) => SystemState { status_interval_ms: ms, ..s },
        Commands::Led(id, state) => if id == 1 {
            SystemState { led_red: state, ..s }
        } else if id == 2 {
            SystemState { led_green: state, ..s }
        } else if id == 3 {
            SystemState { led_blue: state, ..s }
        } else {
            s
        },
        Commands::LightSensor(sub) => match sub {
            LightSensorCommands::Off => SystemState {
                light_state: LightSensorState::PowerOff,
                ..s
            },
            LightSensorCommands::SingleMeasurment => match spec_single_result(ev) {
                Some(lux) => SystemState {
                    light_state: LightSensorState::PowerOff,
                    light_value: Some(lux),
                    ..s
                },
                None => SystemState { light_state: LightSensorState::SingleMeasurement, ..s },
            },
            LightSensorCommands::ContiniousMeasurement => SystemState {
                light_state: LightSensorState::ContiniousMeasurement,
                ..s
            },
        },
        Commands::TemperatureSensor => s,
    }
}

/// The signals a command fires, in firing order. An LED write wakes its
/// channel; every light-sensor command first wakes the poller, preempting an
/// in-flight continuous read before the bus is touched. Exactly one fire
/// follows each cell mutation that must preempt a wait, and none otherwise.
pub open spec fn spec_dispatch_fired(cmd: Commands) -> Seq<SignalId> {
    match cmd {
        Commands::Led(id, state) => if id == 1 {
            seq![SignalId::Red]
        } else if id == 2 {
            seq![SignalId::Green]
        } else if id == 3 {
            seq![SignalId::Blue]
        } else {
            Seq::empty()
        },
        Commands::LightSensor(_) => seq![SignalId::Light],
        _ => Seq::empty(),
    }
}

/// The bus operations a command issues, in order, given the transcript of
/// outcomes. Only light-sensor commands touch the bus.
pub open spec fn spec_dispatch_ops(cmd: Commands, ev: Seq<BusEvent>) -> Seq<BusOp> {
    match cmd {
        Commands::LightSensor(sub) => match sub {
            LightSensorCommands::Off => spec_power_off_ops(),
            LightSensorCommands::SingleMeasurment => spec_single_ops(ev),
            LightSensorCommands::ContiniousMeasurement => spec_continious_ops(ev),
        },
        _ => Seq::empty(),
    }
}

/// Everything one dispatched command did.
#[derive(Debug)]
pub struct DispatchOutcome {
    /// The shared state after the command.
    pub state: SystemState,
    /// The wake signals fired, in order.
    pub fired: Vec<SignalId>,
    /// The bus operations issued under the bus-owner lock, in order.
    pub ops: Vec<BusOp>,
}

/// Dispatches one command against the shared state. `bus` is the transcript
/// of outcomes of the command's bus operations, one per issued operation;
/// commands that never touch the bus ignore it.
pub fn dispatch_command(s: &SystemState, cmd: &Commands, bus: &Vec<BusEvent>) -> (o: DispatchOutcome)
    ensures
        o.state == spec_dispatch_state(*s, *cmd, bus@),
        o.fired@ == spec_dispatch_fired(*cmd),
        o.ops@ == spec_dispatch_ops(*cmd, bus@),
{
    let mut state = *s;
    let mut fired: Vec<SignalId> = Vec::new();
    let mut ops: Vec<BusOp> = Vec::new();
    match cmd {
        Commands::UartStatusReport(ms) => {
            state.status_interval_ms = *ms;
        },
        Commands::Led(id, new_state) => {
            if *id == 1 {
                state.led_red = *new_state;
                fired.push(SignalId::Red);
            } else if *id == 2 {
                state.led_green = *new_state;
                fired.push(SignalId::Green);
            } else if *id == 3 {
                state.led_blue = *new_state;
                fired.push(SignalId::Blue);
            }
        },
        Commands::LightSensor(sub) => {
            fired.push(SignalId::Light);
            match sub {
                LightSensorCommands::Off => {
                    state.light_state = LightSensorState::PowerOff;
                    let mut run = power_off(bus);
                    ops.append(&mut run.ops);
                },
                LightSensorCommands::SingleMeasurment => {
                    state.light_state = LightSensorState::SingleMeasurement;
                    let mut run = single_measurement(bus);
                    ops.append(&mut run.ops);
                    if let Some(lux) = run.reading {
                        state.light_value = Some(lux);
                        state.light_state = LightSensorState::PowerOff;
                    }
                },
                LightSensorCommands::ContiniousMeasurement => {
                    state.light_state = LightSensorState::ContiniousMeasurement;
                    let mut run = continious_measurement(bus);
                    ops.append(&mut run.ops);
                },
            }
        },
        Commands::TemperatureSensor => {},
    }
    proof {
        assert(fired@ =~= spec_dispatch_fired(*cmd));
        assert(ops@ =~= spec_dispatch_ops(*cmd, bus@));
    }
    DispatchOutcome { state, fired, ops }
}

/// An unknown LED channel id is a no-op: dispatching it changes no cell,
/// fires no signal and touches no bus.
pub proof fn lemma_unknown_led_id_is_noop(s: SystemState, id: u8, state: LedState, ev: Seq<BusEvent>)
    requires
        !(1 <= id <= 3),
    ensures
        spec_dispatch_state(s, Commands::Led(id, state), ev) == s,
        spec_dispatch_fired(Commands::Led(id, state)) == Seq::<SignalId>::empty(),
        spec_dispatch_ops(Commands::Led(id, state), ev) == Seq::<BusOp>::empty(),
{
}

/// The wake signal owned by an LED channel.
pub open spec fn spec_channel_signal(id: u8) -> SignalId
    recommends
        1 <= id <= 3,
{
    if id == 1 {
        SignalId::Red
    } else if id == 2 {
        SignalId::Green
    } else {
        SignalId::Blue
    }
}

/// Every cell mutation that must preempt an in-flight wait is followed by a
/// fire of the owning peripheral's wake signal: a command that changes an
/// LED channel fires that channel's signal, and one that changes the
/// sensor's mode fires the poller's.
pub proof fn lemma_mutation_fires_signal(s: SystemState, cmd: Commands, ev: Seq<BusEvent>, id: u8)
    requires
        1 <= id <= 3,
    ensures
        spec_led_channel(spec_dispatch_state(s, cmd, ev), id) != spec_led_channel(s, id)
            ==> spec_dispatch_fired(cmd).contains(spec_channel_signal(id)),
        spec_dispatch_state(s, cmd, ev).light_state != s.light_state ==> spec_dispatch_fired(
            cmd,
        ).contains(SignalId::Light),
{
    if spec_led_channel(spec_dispatch_state(s, cmd, ev), id) != spec_led_channel(s, id) {
        assert(spec_dispatch_fired(cmd)[0] == spec_channel_signal(id));
    }
    if spec_dispatch_state(s, cmd, ev).light_state != s.light_state {
        assert(spec_dispatch_fired(cmd)[0] == SignalId::Light);
    }
}

/// A run of commands dispatched in order, each with the transcript of its
/// own bus outcomes.
pub open spec fn spec_run_commands(
    s: SystemState,
    steps: Seq<(Commands, Seq<BusEvent>)>,
) -> SystemState
    decreases steps.len(),
{
    if steps.len() == 0 {
        s
    } else {
        spec_dispatch_state(
            spec_run_commands(s, steps.drop_last()),
            steps.last().0,
            steps.last().1,
        )
    }
}

/// The commands of a run, without their transcripts.
pub open spec fn spec_cmds_of(steps: Seq<(Commands, Seq<BusEvent>)>) -> Seq<Commands> {
    steps.map_values(|p: (Commands, Seq<BusEvent>)| p.0)
}

/// The state the last LED command addressed to channel `id` wrote, if any
/// command in `cmds` did.
pub open spec fn spec_last_led(cmds: Seq<Commands>, id: u8) -> Option<LedState>
    decreases cmds.len(),
{
    if cmds.len() == 0 {
        None
    } else {
        match cmds.last() {
            Commands::Led(i, state) => if i == id {
                Some(state)
            } else {
                spec_last_led(cmds.drop_last(), id)
            },
            _ => spec_last_led(cmds.drop_last(), id),
        }
    }
}

/// A channel's state after a run of commands: what the last command
/// addressed to it wrote, or its starting state if none was.
pub open spec fn spec_led_after(s: SystemState, cmds: Seq<Commands>, id: u8) -> LedState
    recommends
        1 <= id <= 3,
{
    match spec_last_led(cmds, id) {
        Some(state) => state,
        None => spec_led_channel(s, id),
    }
}

/// The last command wins: after any run of commands quiesces, each LED
/// channel holds exactly the state of the last command issued for it —
/// commands for other channels, unknown ids and sensor traffic leave it
/// untouched.
pub proof fn lemma_led_last_command_wins(
    s: SystemState,
    steps: Seq<(Commands, Seq<BusEvent>)>,
    id: u8,
)
    requires
        1 <= id <= 3,
    ensures
        spec_led_channel(spec_run_commands(s, steps), id) == spec_led_after(
            s,
            spec_cmds_of(steps),
            id,
        ),
    decreases steps.len(),
{
    if steps.len() > 0 {
        lemma_led_last_command_wins(s, steps.drop_last(), id);
        assert(spec_cmds_of(steps).drop_last() =~= spec_cmds_of(steps.drop_last()));
        assert(spec_cmds_of(steps).last() == steps.last().0);
    }
}

} // verus!
