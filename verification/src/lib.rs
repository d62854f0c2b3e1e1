//! Coordination core for a small peripheral-control firmware.
//!
//! The library models the state-coordination layer of a board that drives
//! status LEDs and a digital ambient-light sensor from commands arriving over
//! a serial link, while a background task samples the sensor concurrently.
//! Everything here is pure decision logic with verified contracts:
//!
//! - [`cmd`] — the command values and the textual command grammar;
//! - [`parse`] — tokenising and decimal parsing under that grammar;
//! - [`led`] — per-channel LED target states and the toggle/wait loop model;
//! - [`bh1750fvi`] — the light sensor's opcode-level bus protocol;
//! - [`queue`] — the bounded FIFO carrying commands to the dispatcher;
//! - [`signal`] — the coalescing wake signal that preempts in-flight waits;
//! - [`bus`] — the mutual-exclusion owner of the single hardware bus;
//! - [`dispatch`] — the dispatcher: one command in, state writes, signal
//!   fires and bus operations out;
//! - [`poller`] — the background poller's per-iteration decisions;
//! - [`report`] — the periodic status report line.
//!
//! Hardware access, timers and task plumbing stay outside: callers perform
//! the bus operations and waits these functions request and feed the
//! outcomes back in as plain values.

pub mod bh1750fvi;
pub mod bus;
pub mod cmd;
pub mod dispatch;
pub mod led;
pub mod parse;
pub mod poller;
pub mod queue;
pub mod report;
pub mod signal;
