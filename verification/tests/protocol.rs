//! The light sensor's opcode sequences against mock bus transcripts.

use nucleo_f767zi::bh1750fvi::{
    continious_measurement, power_off, reading_from_bytes, single_measurement, BusEvent, BusOp,
    LightSensorState, BH1750_OPC_CO_MES_HR1, BH1750_OPC_OT_MES_HR1, BH1750_OPC_POWDOWN,
    BH1750_OPC_POWUP,
};

#[test]
fn reading_is_big_endian() {
    assert_eq!(reading_from_bytes(0x01, 0x02), 0x0102);
    assert_eq!(reading_from_bytes(0x01, 0x02), 258);
    assert_eq!(reading_from_bytes(0x00, 0x00), 0);
    assert_eq!(reading_from_bytes(0xFF, 0xFF), 0xFFFF);
}

#[test]
fn single_measurement_success() {
    let events = vec![
        BusEvent::WriteOk,
        BusEvent::WriteOk,
        BusEvent::ReadOk(0x01, 0x02),
    ];
    let run = single_measurement(&events);
    assert_eq!(run.reading, Some(258));
    assert_eq!(
        run.ops,
        vec![
            BusOp::Write(BH1750_OPC_POWUP),
            BusOp::Write(BH1750_OPC_OT_MES_HR1),
            BusOp::ReadTwo,
        ]
    );
}

#[test]
fn single_measurement_first_write_fails() {
    let events = vec![BusEvent::WriteErr];
    let run = single_measurement(&events);
    assert_eq!(run.reading, None);
    assert_eq!(run.ops, vec![BusOp::Write(BH1750_OPC_POWUP)]);
}

#[test]
fn single_measurement_second_write_fails() {
    let events = vec![BusEvent::WriteOk, BusEvent::WriteErr];
    let run = single_measurement(&events);
    assert_eq!(run.reading, None);
    assert_eq!(
        run.ops,
        vec![
            BusOp::Write(BH1750_OPC_POWUP),
            BusOp::Write(BH1750_OPC_OT_MES_HR1),
        ]
    );
}

#[test]
fn single_measurement_read_fails() {
    let events = vec![BusEvent::WriteOk, BusEvent::WriteOk, BusEvent::ReadErr];
    let run = single_measurement(&events);
    assert_eq!(run.reading, None);
    assert_eq!(run.ops.len(), 3);
}

#[test]
fn single_measurement_missing_outcome() {
    let events = vec![BusEvent::WriteOk, BusEvent::WriteOk];
    let run = single_measurement(&events);
    assert_eq!(run.reading, None);
    assert_eq!(run.ops.len(), 3);
}

#[test]
fn continious_measurement_success() {
    let events = vec![BusEvent::WriteOk, BusEvent::WriteOk];
    let run = continious_measurement(&events);
    assert!(run.started);
    assert_eq!(
        run.ops,
        vec![
            BusOp::Write(BH1750_OPC_POWUP),
            BusOp::Write(BH1750_OPC_CO_MES_HR1),
        ]
    );
}

#[test]
fn continious_measurement_power_up_fails() {
    let events = vec![BusEvent::WriteErr];
    let run = continious_measurement(&events);
    assert!(!run.started);
    assert_eq!(run.ops, vec![BusOp::Write(BH1750_OPC_POWUP)]);
}

#[test]
fn power_off_sends_one_opcode() {
    let events = vec![BusEvent::WriteOk];
    let run = power_off(&events);
    assert!(run.acknowledged);
    assert_eq!(run.ops, vec![BusOp::Write(BH1750_OPC_POWDOWN)]);

    let failed = power_off(&vec![BusEvent::WriteErr]);
    assert!(!failed.acknowledged);
    assert_eq!(failed.ops, vec![BusOp::Write(BH1750_OPC_POWDOWN)]);
}

#[test]
fn mode_words() {
    assert_eq!(LightSensorState::PowerOff.as_str(), "off");
    assert_eq!(LightSensorState::SingleMeasurement.as_str(), "single");
    assert_eq!(LightSensorState::ContiniousMeasurement.as_str(), "on");
}
