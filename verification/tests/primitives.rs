//! The coordination primitives: command queue, wake signal, bus owner,
//! poller decisions, LED controller decisions and the status report.

use nucleo_f767zi::bh1750fvi::LightSensorState;
use nucleo_f767zi::bus::{BusOwner, BusTask};
use nucleo_f767zi::cmd::Commands;
use nucleo_f767zi::dispatch::initial_state;
use nucleo_f767zi::led::{apply_led_action, led_step, toggle_run, LedAction, LedState, LedWait};
use nucleo_f767zi::poller::{
    poller_on_race, poller_step, PollerAction, PollerFollowup, RaceOutcome,
};
use nucleo_f767zi::queue::{CommandQueue, COMMAND_QUEUE_CAPACITY};
use nucleo_f767zi::report::{report_schedule, status_report_bytes, REPORT_RETRY_MS};
use nucleo_f767zi::signal::WakeSignal;

#[test]
fn queue_delivers_in_send_order() {
    let mut q = CommandQueue::new();
    assert!(q.is_empty());
    assert!(q.try_send(Commands::UartStatusReport(1)));
    assert!(q.try_send(Commands::UartStatusReport(2)));
    assert!(q.try_send(Commands::UartStatusReport(3)));
    assert_eq!(q.len(), 3);
    assert_eq!(q.try_receive(), Some(Commands::UartStatusReport(1)));
    assert_eq!(q.try_receive(), Some(Commands::UartStatusReport(2)));
    assert_eq!(q.try_receive(), Some(Commands::UartStatusReport(3)));
    assert_eq!(q.try_receive(), None);
}

#[test]
fn queue_refuses_when_full() {
    let mut q = CommandQueue::new();
    for i in 0..COMMAND_QUEUE_CAPACITY {
        assert!(q.try_send(Commands::UartStatusReport(i as u32)));
    }
    assert!(q.is_full());
    assert!(!q.try_send(Commands::TemperatureSensor));
    assert_eq!(q.len(), COMMAND_QUEUE_CAPACITY);
    assert_eq!(q.try_receive(), Some(Commands::UartStatusReport(0)));
    assert!(q.try_send(Commands::TemperatureSensor));
}

#[test]
fn queue_drain_keeps_order() {
    let mut q = CommandQueue::new();
    assert!(q.try_send(Commands::UartStatusReport(7)));
    assert!(q.try_send(Commands::TemperatureSensor));
    let out = q.drain();
    assert_eq!(
        out,
        vec![Commands::UartStatusReport(7), Commands::TemperatureSensor]
    );
    assert!(q.is_empty());
}

#[test]
fn signal_fires_coalesce() {
    let mut s = WakeSignal::new();
    assert!(!s.take());
    s.fire();
    s.fire();
    s.fire();
    assert!(s.take());
    assert!(!s.take());
}

#[test]
fn bus_lock_is_exclusive() {
    let mut b = BusOwner::new();
    assert!(b.try_acquire(BusTask::Dispatcher));
    assert!(b.held_by(BusTask::Dispatcher));
    assert!(!b.try_acquire(BusTask::Poller));
    assert!(!b.held_by(BusTask::Poller));
    b.release(BusTask::Dispatcher);
    assert!(b.try_acquire(BusTask::Poller));
    assert!(!b.try_acquire(BusTask::Dispatcher));
    b.release(BusTask::Poller);
}

#[test]
fn poller_reads_only_in_continuous_mode() {
    assert_eq!(
        poller_step(&LightSensorState::ContiniousMeasurement),
        PollerAction::ReadRace
    );
    assert_eq!(
        poller_step(&LightSensorState::PowerOff),
        PollerAction::WaitForSignal
    );
    assert_eq!(
        poller_step(&LightSensorState::SingleMeasurement),
        PollerAction::WaitForSignal
    );
}

#[test]
fn poller_race_outcomes() {
    let prev = Some(42u16);
    assert_eq!(
        poller_on_race(&RaceOutcome::ReadDone(0x01, 0x02), &prev),
        (Some(258), PollerFollowup::SleepPollInterval)
    );
    assert_eq!(
        poller_on_race(&RaceOutcome::ReadFailed, &prev),
        (Some(42), PollerFollowup::SleepPollInterval)
    );
    assert_eq!(
        poller_on_race(&RaceOutcome::Signalled, &prev),
        (Some(42), PollerFollowup::Reloop)
    );
}

#[test]
fn led_steps_and_actions() {
    assert_eq!(
        led_step(&LedState::Manual(true)),
        (LedAction::SetLevel(true), LedWait::UntilSignal)
    );
    assert_eq!(
        led_step(&LedState::Toggle(250)),
        (LedAction::FlipLevel, LedWait::TimerOrSignal(250))
    );
    assert!(apply_led_action(false, &LedAction::SetLevel(true)));
    assert!(!apply_led_action(true, &LedAction::SetLevel(false)));
    assert!(apply_led_action(false, &LedAction::FlipLevel));
    assert!(!apply_led_action(true, &LedAction::FlipLevel));
}

#[test]
fn toggle_flip_counts() {
    assert_eq!(toggle_run(false, 100, 1050), (10, false));
    assert_eq!(toggle_run(false, 2, 7), (3, true));
    assert_eq!(toggle_run(true, 500, 499), (0, true));
    assert_eq!(toggle_run(false, 1, 5), (5, true));
}

#[test]
fn status_report_lines() {
    let line = status_report_bytes(&LightSensorState::PowerOff, &None);
    assert_eq!(
        line,
        b"Status: Light Sensor off - No sensor value yet\r\n".to_vec()
    );
    let line = status_report_bytes(&LightSensorState::ContiniousMeasurement, &Some(258));
    assert_eq!(line, b"Status: Light Sensor on - 258 Lux\r\n".to_vec());
    let line = status_report_bytes(&LightSensorState::SingleMeasurement, &Some(0));
    assert_eq!(line, b"Status: Light Sensor single - 0 Lux\r\n".to_vec());
}

#[test]
fn report_scheduling() {
    assert_eq!(report_schedule(0), (false, REPORT_RETRY_MS));
    assert_eq!(report_schedule(10000), (true, 10000));
}

#[test]
fn initial_state_matches_reset_defaults() {
    let s = initial_state();
    assert_eq!(s.led_red, LedState::default());
    assert_eq!(s.light_state, LightSensorState::PowerOff);
}
