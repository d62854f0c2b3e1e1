//! The dispatcher: state writes, signal fires and bus traffic per command.

use nucleo_f767zi::bh1750fvi::{BusEvent, BusOp, LightSensorState, BH1750_OPC_POWDOWN};
use nucleo_f767zi::cmd::{Commands, LightSensorCommands};
use nucleo_f767zi::dispatch::{dispatch_command, initial_state, SignalId};
use nucleo_f767zi::led::LedState;

#[test]
fn initial_state_defaults() {
    let s = initial_state();
    assert_eq!(s.status_interval_ms, 10000);
    assert_eq!(s.led_red, LedState::Manual(false));
    assert_eq!(s.led_green, LedState::Manual(false));
    assert_eq!(s.led_blue, LedState::Manual(false));
    assert_eq!(s.light_state, LightSensorState::PowerOff);
    assert_eq!(s.light_value, None);
}

#[test]
fn status_interval_is_stored() {
    let s = initial_state();
    let o = dispatch_command(&s, &Commands::UartStatusReport(2500), &vec![]);
    assert_eq!(o.state.status_interval_ms, 2500);
    assert!(o.fired.is_empty());
    assert!(o.ops.is_empty());
}

#[test]
fn led_write_fires_matching_signal() {
    let s = initial_state();
    let o = dispatch_command(&s, &Commands::Led(2, LedState::Toggle(100)), &vec![]);
    assert_eq!(o.state.led_green, LedState::Toggle(100));
    assert_eq!(o.state.led_red, s.led_red);
    assert_eq!(o.state.led_blue, s.led_blue);
    assert_eq!(o.fired, vec![SignalId::Green]);
    assert!(o.ops.is_empty());
}

#[test]
fn unknown_led_id_is_a_no_op() {
    let s = initial_state();
    let o = dispatch_command(&s, &Commands::Led(9, LedState::Manual(true)), &vec![]);
    assert_eq!(o.state, s);
    assert!(o.fired.is_empty());
    assert!(o.ops.is_empty());
}

#[test]
fn last_led_command_wins() {
    let mut s = initial_state();
    let cmds = vec![
        Commands::Led(1, LedState::Manual(true)),
        Commands::Led(1, LedState::Toggle(300)),
        Commands::Led(2, LedState::Manual(true)),
        Commands::Led(9, LedState::Toggle(7)),
        Commands::Led(1, LedState::Manual(false)),
    ];
    for cmd in &cmds {
        s = dispatch_command(&s, cmd, &vec![]).state;
    }
    assert_eq!(s.led_red, LedState::Manual(false));
    assert_eq!(s.led_green, LedState::Manual(true));
    assert_eq!(s.led_blue, LedState::Manual(false));
}

#[test]
fn light_off_powers_down() {
    let mut s = initial_state();
    s.light_state = LightSensorState::ContiniousMeasurement;
    let o = dispatch_command(
        &s,
        &Commands::LightSensor(LightSensorCommands::Off),
        &vec![BusEvent::WriteOk],
    );
    assert_eq!(o.state.light_state, LightSensorState::PowerOff);
    assert_eq!(o.fired, vec![SignalId::Light]);
    assert_eq!(o.ops, vec![BusOp::Write(BH1750_OPC_POWDOWN)]);
}

#[test]
fn single_measurement_stores_reading_and_powers_off() {
    let s = initial_state();
    let o = dispatch_command(
        &s,
        &Commands::LightSensor(LightSensorCommands::SingleMeasurment),
        &vec![
            BusEvent::WriteOk,
            BusEvent::WriteOk,
            BusEvent::ReadOk(0x01, 0x02),
        ],
    );
    assert_eq!(o.state.light_value, Some(258));
    assert_eq!(o.state.light_state, LightSensorState::PowerOff);
    assert_eq!(o.fired, vec![SignalId::Light]);
    assert_eq!(o.ops.len(), 3);
}

#[test]
fn failed_single_measurement_keeps_previous_reading() {
    let mut s = initial_state();
    s.light_value = Some(1234);
    let o = dispatch_command(
        &s,
        &Commands::LightSensor(LightSensorCommands::SingleMeasurment),
        &vec![BusEvent::WriteOk, BusEvent::WriteErr],
    );
    assert_eq!(o.state.light_value, Some(1234));
    assert_eq!(o.state.light_state, LightSensorState::SingleMeasurement);
    assert_eq!(o.fired, vec![SignalId::Light]);
}

#[test]
fn continious_command_records_intent_even_on_failure() {
    let s = initial_state();
    let o = dispatch_command(
        &s,
        &Commands::LightSensor(LightSensorCommands::ContiniousMeasurement),
        &vec![BusEvent::WriteErr],
    );
    assert_eq!(o.state.light_state, LightSensorState::ContiniousMeasurement);
    assert_eq!(o.fired, vec![SignalId::Light]);
    assert_eq!(o.state.light_value, None);
}

#[test]
fn temperature_command_is_reserved() {
    let s = initial_state();
    let o = dispatch_command(&s, &Commands::TemperatureSensor, &vec![]);
    assert_eq!(o.state, s);
    assert!(o.fired.is_empty());
    assert!(o.ops.is_empty());
}
