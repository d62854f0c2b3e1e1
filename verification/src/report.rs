//! The periodic status report: the line the reporting task sends over the
//! serial link, and its scheduling decision. Building the line is pure; the
//! transmission and the sleeps stay with the caller.

use vstd::prelude::*;

use crate::bh1750fvi::{spec_mode_text, LightSensorState};
use vstd::string::StringSliceAdditionalSpecFns;

verus! {

/// How long the reporter sleeps before looking again while reporting is
/// switched off (interval zero), in milliseconds.
pub const REPORT_RETRY_MS: u64 = 250;

/// The decimal digits of `n`, most significant first.
pub open spec fn spec_dec_bytes(n: nat) -> Seq<u8>
    decreases n,
{
    if n < 10 {
        seq![(48 + n) as u8]
    } else {
        spec_dec_bytes(n / 10).push((48 + n % 10) as u8)
    }
}

/// Appends the decimal digits of `n`.
fn push_dec_u16(out: &mut Vec<u8>, n: u16)
    ensures
        final(out)@ == old(out)@ + spec_dec_bytes(n as nat),
    decreases n,
{
    if n < 10 {
        out.push(48 + n as u8);
        proof {
            assert(out@ =~= old(out)@ + spec_dec_bytes(n as nat));
        }
    } else {
        push_dec_u16(out, n / 10);
        out.push(48 + (n % 10) as u8);
        proof {
            assert(out@ =~= old(out)@ + spec_dec_bytes(n as nat));
        }
    }
}

/// Appends every byte of `s`.
fn push_all(out: &mut Vec<u8>, s: &[u8])
    ensures
        final(out)@ == old(out)@ + s@,
{
    let mut i: usize = 0;
    while i < s.len()
        invariant
            i <= s@.len(),
            out@ == old(out)@ + s@.take(i as int),
        decreases s@.len() - i,
    {
        out.push(s[i]);
        proof {
            assert(old(out)@ + s@.take(i as int) + seq![s@[i as int]] =~= old(out)@ + s@.take(
                i + 1,
            ));
        }
        i = i + 1;
    }
    proof {
        assert(s@.take(i as int) =~= s@);
    }
}

/// The encoded bytes of a character sequence (the mode words are ASCII, so
/// each character is one byte).
pub open spec fn spec_ascii_bytes(s: Seq<char>) -> Seq<u8> {
    vstd::utf8::encode_utf8(s)
}

/// The status line for a sensor mode and the last stored reading: the mode's
/// word, then either the reading in lux or a note that none arrived yet.
pub open spec fn spec_status_report(state: LightSensorState, value: Option<u16>) -> Seq<u8> {
    "Status: Light Sensor ".spec_bytes() + spec_ascii_bytes(spec_mode_text(state)) + (match value {
        Some(lux) => " - ".spec_bytes() + spec_dec_bytes(lux as nat) + " Lux".spec_bytes(),
        None => " - No sensor value yet".spec_bytes(),
    }) + "\r\n".spec_bytes()
}

/// Builds the status report line.
pub fn status_report_bytes(state: &LightSensorState, value: &Option<u16>) -> (out: Vec<u8>)
    ensures
        out@ == spec_status_report(*state, *value),
{
    let mut out: Vec<u8> = Vec::new();
    push_all(&mut out, "Status: Light Sensor ".as_bytes());
    push_all(&mut out, state.as_str().as_bytes());
    match value {
        Some(lux) => {
            push_all(&mut out, " - ".as_bytes());
            push_dec_u16(&mut out, *lux);
            push_all(&mut out, " Lux".as_bytes());
        },
        None => {
            push_all(&mut out, " - No sensor value yet".as_bytes());
        },
    }
    push_all(&mut out, "\r\n".as_bytes());
    proof {
        assert(out@ =~= spec_status_report(*state, *value));
    }
    out
}

/// What the reporting task does for a configured interval: an interval of
/// zero means reporting is off — look again shortly — and any other value
/// sends one report, then sleeps that many milliseconds.
pub open spec fn spec_report_schedule(interval_ms: u32) -> (bool, u64) {
    if interval_ms == 0 {
        (false, REPORT_RETRY_MS)
    } else {
        (true, interval_ms as u64)
    }
}

/// Decides one pass of the reporting task: whether to send a report now, and
/// how long to sleep afterwards.
pub fn report_schedule(interval_ms: u32) -> (r: (bool, u64))
    ensures
        r == spec_report_schedule(interval_ms),
{
    if interval_ms == 0 {
        (false, REPORT_RETRY_MS)
    } else {
        (true, interval_ms as u64)
    }
}

} // verus!
