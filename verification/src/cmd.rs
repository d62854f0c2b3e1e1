//! The command values the dispatcher consumes and the textual command
//! grammar that produces them.
//!
//! A command line is space-separated tokens:
//!
//! - `led <r|red|g|green|b|blue> <off|on|<integer-ms>>` sets one LED channel;
//! - `status <integer-ms>` sets the status-report interval;
//! - `light <s|single|c|continious|off>` drives the light sensor.
//!
//! Anything else parses to no command; the producing side drops it.

use vstd::prelude::*;

use crate::led::{led_state_from_bytes, spec_led_state, LedState};
use crate::parse::{bytes_eq, parse_u32, spec_parse_u32, spec_tokens, tokenize};
use vstd::string::StringSliceAdditionalSpecFns;

verus! {

/// A request directed at the light sensor.
#[derive(Clone, Copy, Debug, PartialEq, Eq, Structural)]
pub enum LightSensorCommands {
    /// Power the sensor down.
    Off,
    /// Take one measurement, store the reading, power back off.
    SingleMeasurment,
    /// Start free-running measurement, sampled by the background poller.
    ContiniousMeasurement,
}

/// A command for the dispatcher.
#[derive(Clone, Copy, Debug, PartialEq, Eq, Structural)]
pub enum Commands {
    /// Sets the interval of the periodic status report, in milliseconds.
    UartStatusReport(u32),
    /// Sets a new target state for the LED channel with the given id.
    Led(u8, LedState),
    /// Drives the BH1750FVI light sensor over the shared bus.
    LightSensor(LightSensorCommands),
    /// Reserved for a one-wire temperature sensor; not implemented.
    TemperatureSensor,
}

/// The channel id a colour token names: 1 red, 2 green, 3 blue.
pub open spec fn spec_led_id(w: Seq<u8>) -> Option<u8> {
    if w == "r".spec_bytes() || w == "red".spec_bytes() {
        Some(1u8)
    } else if w == "g".spec_bytes() || w == "green".spec_bytes() {
        Some(2u8)
    } else if w == "b".spec_bytes() || w == "blue".spec_bytes() {
        Some(3u8)
    } else {
        None
    }
}

/// Parses a colour token into its channel id.
pub fn led_id_from_bytes(w: &[u8]) -> (r: Option<u8>)
    ensures
        r == spec_led_id(w@),
{
    if bytes_eq(w, "r".as_bytes()) || bytes_eq(w, "red".as_bytes()) {
        Some(1u8)
    } else if bytes_eq(w, "g".as_bytes()) || bytes_eq(w, "green".as_bytes()) {
        Some(2u8)
    } else if bytes_eq(w, "b".as_bytes()) || bytes_eq(w, "blue".as_bytes()) {
        Some(3u8)
    } else {
        None
    }
}

/// The light-sensor request a sub-command token names.
pub open spec fn spec_light_sub(w: Seq<u8>) -> Option<LightSensorCommands> {
    if w == "s".spec_bytes() || w == "single".spec_bytes() {
        Some(LightSensorCommands::SingleMeasurment)
    } else if w == "c".spec_bytes() || w == "continious".spec_bytes() {
        Some(LightSensorCommands::ContiniousMeasurement)
    } else if w == "off".spec_bytes() {
        Some(LightSensorCommands::Off)
    } else {
        None
    }
}

/// Parses a light-sensor sub-command token.
pub fn light_sub_from_bytes(w: &[u8]) -> (r: Option<LightSensorCommands>)
    ensures
        r == spec_light_sub(w@),
{
    if bytes_eq(w, "s".as_bytes()) || bytes_eq(w, "single".as_bytes()) {
        Some(LightSensorCommands::SingleMeasurment)
    } else if bytes_eq(w, "c".as_bytes()) || bytes_eq(w, "continious".as_bytes()) {
        Some(LightSensorCommands::ContiniousMeasurement)
    } else if bytes_eq(w, "off".as_bytes()) {
        Some(LightSensorCommands::Off)
    } else {
        None
    }
}

/// What a command line parses to. The first token picks the command; the
/// remaining tokens are its arguments, and surplus tokens are ignored. A
/// line whose tokens fit no rule parses to no command.
pub open spec fn spec_str_to_command(t: Seq<u8>) -> Option<Commands> {
    let tk = spec_tokens(t);
    if tk[0] == "led".spec_bytes() {
        if tk.len() >= 3 {
            match (spec_led_id(tk[1]), spec_led_state(tk[2])) {
                (Some(id), Some(state)) => Some(Commands::Led(id, state)),
                _ => None,
            }
        } else {
            None
        }
    } else if tk[0] == "status".spec_bytes() {
        if tk.len() >= 2 {
            match spec_parse_u32(tk[1]) {
                Some(ms) => Some(Commands::UartStatusReport(ms)),
                None => None,
            }
        } else {
            None
        }
    } else if tk[0] == "light".spec_bytes() {
        if tk.len() >= 2 {
            match spec_light_sub(tk[1]) {
                Some(sub) => Some(Commands::LightSensor(sub)),
                None => None,
            }
        } else {
            None
        }
    } else {
        None
    }
}

/// Parses one trimmed command line.
pub fn str_to_command(msg: &str) -> (r: Option<Commands>)
    ensures
        r == spec_str_to_command(msg.spec_bytes()),
{
    let bytes = msg.as_bytes();
    let tks = tokenize(bytes);
    proof {
        assert(tks@.map_values(|v: Vec<u8>| v@)[0] == tks@[0]@);
    }
    if bytes_eq(tks[0].as_slice(), "led".as_bytes()) {
        if tks.len() >= 3 {
            proof {
                assert(tks@.map_values(|v: Vec<u8>| v@)[1] == tks@[1]@);
                assert(tks@.map_values(|v: Vec<u8>| v@)[2] == tks@[2]@);
            }
            match (led_id_from_bytes(tks[1].as_slice()), led_state_from_bytes(tks[2].as_slice())) {
                (Some(id), Some(state)) => Some(Commands::Led(id, state)),
                _ => None,
            }
        } else {
            None
        }
    } else if bytes_eq(tks[0].as_slice(), "status".as_bytes()) {
        if tks.len() >= 2 {
            proof {
                assert(tks@.map_values(|v: Vec<u8>| v@)[1] == tks@[1]@);
            }
            match parse_u32(tks[1].as_slice()) {
                Some(ms) => Some(Commands::UartStatusReport(ms)),
                None => None,
            }
        } else {
            None
        }
    } else if bytes_eq(tks[0].as_slice(), "light".as_bytes()) {
        if tks.len() >= 2 {
            proof {
                assert(tks@.map_values(|v: Vec<u8>| v@)[1] == tks@[1]@);
            }
            match light_sub_from_bytes(tks[1].as_slice()) {
                Some(sub) => Some(Commands::LightSensor(sub)),
                None => None,
            }
        } else {
            None
        }
    } else {
        None
    }
}

} // verus!
