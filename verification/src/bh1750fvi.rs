//! Wire-level protocol of the BH1750FVI digital 16-bit ambient-light sensor.
//!
//! The sensor understands single-byte opcodes sent to its bus address, and it
//! accepts only one opcode per bus transaction — opcodes are never
//! concatenated into one write, which [`BusOp::Write`] encodes by carrying
//! exactly one opcode. A measurement is read back as two bytes, big-endian.
//!
//! The sequences here are pure: the caller performs each requested [`BusOp`]
//! on the hardware and the functions take the transcript of outcomes
//! ([`BusEvent`]s, one per issued operation) as input.

use vstd::prelude::*;

verus! {

/// The sensor's bus address with the address pin driven high.
pub const BH1750_ADDR_H: u8 = 0x5C;

/// The sensor's bus address with the address pin driven low.
pub const BH1750_ADDR_L: u8 = 0x23;

/// Opcode: power down.
pub const BH1750_OPC_POWDOWN: u8 = 0b0000;

/// Opcode: power up.
pub const BH1750_OPC_POWUP: u8 = 0b0001;

/// Opcode: start continuous high-resolution measurement.
pub const BH1750_OPC_CO_MES_HR1: u8 = 0b01_0000;

/// Opcode: one-time high-resolution measurement.
pub const BH1750_OPC_OT_MES_HR1: u8 = 0b10_0000;

/// Opcode: reset the data register (defined by the part, unused here).
pub const BH1750_OPC_RESET: u8 = 0b0111;

/// Opcode: continuous high-resolution measurement, mode 2 (unused here).
pub const BH1750_OPC_CO_MES_HR2: u8 = 0b01_0001;

/// Opcode: continuous low-resolution measurement (unused here).
pub const BH1750_OPC_CO_MES_LR1: u8 = 0b01_0011;

/// Opcode: one-time high-resolution measurement, mode 2 (unused here).
pub const BH1750_OPC_OT_MES_HR2: u8 = 0b10_0001;

/// Opcode: one-time low-resolution measurement (unused here).
pub const BH1750_OPC_OT_MES_LR1: u8 = 0b10_0011;

/// The sensor's operating mode as last commanded. During the brief bus
/// exchange of a single measurement the value is set before the transaction
/// and reset after it, so it reflects the last issued intent rather than the
/// hardware phase of the moment.
#[derive(Clone, Copy, Debug, PartialEq, Eq, Structural)]
pub enum LightSensorState {
    PowerOff,
    SingleMeasurement,
    ContiniousMeasurement,
}

/// The word the status report prints for each operating mode.
pub open spec fn spec_mode_text(state: LightSensorState) -> Seq<char> {
    match state {
        LightSensorState::PowerOff => "off"@,
        LightSensorState::SingleMeasurement => "single"@,
        LightSensorState::ContiniousMeasurement => "on"@,
    }
}

impl LightSensorState {
    /// The short textual form used in status reports.
    pub fn as_str(&self) -> (r: &'static str)
        ensures
            r@ == spec_mode_text(*self),
    {
        match self {
            LightSensorState::PowerOff => "off",
            LightSensorState::SingleMeasurement => "single",
            LightSensorState::ContiniousMeasurement => "on",
        }
    }
}

/// One bus transaction directed at the sensor.
#[derive(Clone, Copy, Debug, PartialEq, Eq, Structural)]
pub enum BusOp {
    /// Write a single opcode — one opcode per transaction, as the part
    /// requires.
    Write(u8),
    /// Read the two bytes of a measurement.
    ReadTwo,
}

/// The outcome of one bus transaction, as the hardware reported it.
#[derive(Clone, Copy, Debug, PartialEq, Eq, Structural)]
pub enum BusEvent {
    /// An opcode write was acknowledged.
    WriteOk,
    /// An opcode write failed.
    WriteErr,
    /// A two-byte read completed, most significant byte first.
    ReadOk(u8, u8),
    /// A read failed.
    ReadErr,
}

/// The lux reading encoded by the two measurement bytes: big-endian 16-bit,
/// unscaled.
pub open spec fn spec_reading(b0: u8, b1: u8) -> u16 {
    (b0 as u16 * 256 + b1 as u16) as u16
}

/// Combines the two measurement bytes into a lux reading.
pub fn reading_from_bytes(b0: u8, b1: u8) -> (r: u16)
    ensures
        r == spec_reading(b0, b1),
{
    let r = ((b0 as u16) << 8) | (b1 as u16);
    proof {
        assert(((b0 as u16) << 8) | (b1 as u16) == b0 as u16 * 256 + b1 as u16) by (bit_vector);
    }
    r
}

/// Whether the event at position `i` of a transcript is an acknowledged
/// write.
pub open spec fn ev_write_ok(ev: Seq<BusEvent>, i: int) -> bool {
    0 <= i < ev.len() && ev[i] == BusEvent::WriteOk
}

/// The operations the single-measurement sequence issues, given the
/// transcript of outcomes: power up, then the one-time measurement opcode,
/// then the two-byte read, each step taken only if the one before succeeded.
pub open spec fn spec_single_ops(ev: Seq<BusEvent>) -> Seq<BusOp> {
    if !ev_write_ok(ev, 0) {
        seq![BusOp::Write(BH1750_OPC_POWUP)]
    } else if !ev_write_ok(ev, 1) {
        seq![BusOp::Write(BH1750_OPC_POWUP), BusOp::Write(BH1750_OPC_OT_MES_HR1)]
    } else {
        seq![
            BusOp::Write(BH1750_OPC_POWUP),
            BusOp::Write(BH1750_OPC_OT_MES_HR1),
            BusOp::ReadTwo,
        ]
    }
}

/// The reading a single-measurement sequence yields: the big-endian value of
/// the two read bytes when both writes were acknowledged and the read
/// completed; nothing when any step failed or no outcome arrived for it.
pub open spec fn spec_single_result(ev: Seq<BusEvent>) -> Option<u16> {
    if ev_write_ok(ev, 0) && ev_write_ok(ev, 1) && 2 < ev.len() {
        match ev[2] {
            BusEvent::ReadOk(b0, b1) => Some(spec_reading(b0, b1)),
            _ => None,
        }
    } else {
        None
    }
}

/// What a single-measurement sequence did: the operations it issued and the
/// reading it obtained, if any.
#[derive(Debug)]
pub struct SingleRun {
    /// The bus operations issued, in order.
    pub ops: Vec<BusOp>,
    /// The reading, when the whole sequence succeeded.
    pub reading: Option<u16>,
}

/// Runs the single-measurement sequence against a transcript of bus
/// outcomes: power up, request a one-time high-resolution measurement, read
/// two bytes. Any failure aborts the sequence and yields no reading — a
/// failed refresh never fabricates a value.
pub fn single_measurement(events: &Vec<BusEvent>) -> (r: SingleRun)
    ensures
        r.ops@ == spec_single_ops(events@),
        r.reading == spec_single_result(events@),
{
    let mut ops: Vec<BusOp> = Vec::new();
    ops.push(BusOp::Write(BH1750_OPC_POWUP));
    if !(events.len() > 0 && matches!(events[0], BusEvent::WriteOk)) {
        proof {
            assert(ops@ =~= spec_single_ops(events@));
        }
        return SingleRun { ops, reading: None };
    }
    ops.push(BusOp::Write(BH1750_OPC_OT_MES_HR1));
    if !(events.len() > 1 && matches!(events[1], BusEvent::WriteOk)) {
        proof {
            assert(ops@ =~= spec_single_ops(events@));
        }
        return SingleRun { ops, reading: None };
    }
    ops.push(BusOp::ReadTwo);
    proof {
        assert(ops@ =~= spec_single_ops(events@));
    }
    if events.len() > 2 {
        if let BusEvent::ReadOk(b0, b1) = events[2] {
            let lux = reading_from_bytes(b0, b1);
            return SingleRun { ops, reading: Some(lux) };
        }
    }
    SingleRun { ops, reading: None }
}

/// The operations the continuous-measurement start sequence issues: power
/// up, then the continuous measurement opcode if the power-up was
/// acknowledged. The sensor free-runs afterwards; the background poller does
/// the periodic reads.
pub open spec fn spec_continious_ops(ev: Seq<BusEvent>) -> Seq<BusOp> {
    if !ev_write_ok(ev, 0) {
        seq![BusOp::Write(BH1750_OPC_POWUP)]
    } else {
        seq![BusOp::Write(BH1750_OPC_POWUP), BusOp::Write(BH1750_OPC_CO_MES_HR1)]
    }
}

/// Whether the continuous-measurement start sequence succeeded: both writes
/// acknowledged.
pub open spec fn spec_continious_ok(ev: Seq<BusEvent>) -> bool {
    ev_write_ok(ev, 0) && ev_write_ok(ev, 1)
}

/// What a continuous-measurement start did: the operations issued and
/// whether the sensor is now free-running.
#[derive(Debug)]
pub struct ContiniousRun {
    /// The bus operations issued, in order.
    pub ops: Vec<BusOp>,
    /// Whether both opcodes were acknowledged.
    pub started: bool,
}

/// Runs the continuous-measurement start sequence against a transcript of
/// bus outcomes.
pub fn continious_measurement(events: &Vec<BusEvent>) -> (r: ContiniousRun)
    ensures
        r.ops@ == spec_continious_ops(events@),
        r.started == spec_continious_ok(events@),
{
    let mut ops: Vec<BusOp> = Vec::new();
    ops.push(BusOp::Write(BH1750_OPC_POWUP));
    if !(events.len() > 0 && matches!(events[0], BusEvent::WriteOk)) {
        proof {
            assert(ops@ =~= spec_continious_ops(events@));
        }
        return ContiniousRun { ops, started: false };
    }
    ops.push(BusOp::Write(BH1750_OPC_CO_MES_HR1));
    proof {
        assert(ops@ =~= spec_continious_ops(events@));
    }
    let started = events.len() > 1 && matches!(events[1], BusEvent::WriteOk);
    ContiniousRun { ops, started }
}

/// The one operation the power-down sequence issues.
pub open spec fn spec_power_off_ops() -> Seq<BusOp> {
    seq![BusOp::Write(BH1750_OPC_POWDOWN)]
}

/// Whether the power-down write was acknowledged.
pub open spec fn spec_power_off_ok(ev: Seq<BusEvent>) -> bool {
    ev_write_ok(ev, 0)
}

/// What a power-down did.
#[derive(Debug)]
pub struct PowerOffRun {
    /// The bus operations issued.
    pub ops: Vec<BusOp>,
    /// Whether the write was acknowledged.
    pub acknowledged: bool,
}

/// Runs the power-down sequence against a transcript of bus outcomes: a
/// single power-down opcode.
pub fn power_off(events: &Vec<BusEvent>) -> (r: PowerOffRun)
    ensures
        r.ops@ == spec_power_off_ops(),
        r.acknowledged == spec_power_off_ok(events@),
{
    let mut ops: Vec<BusOp> = Vec::new();
    ops.push(BusOp::Write(BH1750_OPC_POWDOWN));
    proof {
        assert(ops@ =~= spec_power_off_ops());
    }
    let acknowledged = events.len() > 0 && matches!(events[0], BusEvent::WriteOk);
    PowerOffRun { ops, acknowledged }
}

} // verus!
