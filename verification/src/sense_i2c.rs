//! The CO2 task in its plain form, alone on the bus: no calibration, no
//! pressure compensation, always at low power.

use crate::acquisition::{Identification, Profile, ReadFailure, StartCommand};
use crate::sense_co2::SETTLE_MS;
use vstd::prelude::*;

verus! {

/// Time between two polls, in milliseconds.
pub const POLL_MS: u64 = 30_000;

/// The plain CO2 task: stop the sensor, ask it for its model and, whatever it
/// answers, for its serial number, start it at low power, then poll it every
/// 30 seconds and publish each reading as it comes.
pub open spec fn i2c_profile() -> Profile {
    Profile {
        settle_ms: SETTLE_MS,
        stop_first: true,
        identify: Identification::SerialAlways,
        offset_tenths: None,
        start: Some(StartCommand::LowPowerPeriodic),
        warmup_ms: None,
        ready_check: true,
        read_failure: ReadFailure::Fatal,
        compensate: false,
        publish: true,
        interval_ms: POLL_MS,
    }
}

/// The profile of the plain CO2 task.
pub fn profile() -> (p: Profile)
    ensures
        p == i2c_profile(),
{
    Profile {
        settle_ms: SETTLE_MS,
        stop_first: true,
        identify: Identification::SerialAlways,
        offset_tenths: None,
        start: Some(StartCommand::LowPowerPeriodic),
        warmup_ms: None,
        ready_check: true,
        read_failure: ReadFailure::Fatal,
        compensate: false,
        publish: true,
        interval_ms: POLL_MS,
    }
}

} // verus!
