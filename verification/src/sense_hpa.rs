//! The pressure task in its plain form: it publishes the sensor's
//! measurement as it comes and starts polling at once.

use crate::acquisition::{Identification, Profile, ReadFailure, StartCommand};
use crate::power::PowerMode;
use crate::sense_co2::SETTLE_MS;
use vstd::prelude::*;

verus! {

/// Time between two measurements, in milliseconds.
pub open spec fn loop_delay(mode: PowerMode) -> u64 {
    match mode {
        PowerMode::High => 5_000,
        PowerMode::Low => 30_000,
    }
}

/// The plain pressure task: initialise the sensor, then measure at once and
/// after every delay. A measurement that fails is left out.
pub open spec fn hpa_profile(mode: PowerMode) -> Profile {
    Profile {
        settle_ms: SETTLE_MS,
        stop_first: false,
        identify: Identification::Skipped,
        offset_tenths: None,
        start: Some(StartCommand::Initialize),
        warmup_ms: None,
        ready_check: false,
        read_failure: ReadFailure::Skip,
        compensate: false,
        publish: true,
        interval_ms: loop_delay(mode),
    }
}

/// The profile of the plain pressure task for a power mode.
pub fn profile(mode: PowerMode) -> (p: Profile)
    ensures
        p == hpa_profile(mode),
{
    let delay: u64 = match mode {
        PowerMode::High => 5_000,
        PowerMode::Low => 30_000,
    };
    Profile {
        settle_ms: SETTLE_MS,
        stop_first: false,
        identify: Identification::Skipped,
        offset_tenths: None,
        start: Some(StartCommand::Initialize),
        warmup_ms: None,
        ready_check: false,
        read_failure: ReadFailure::Skip,
        compensate: false,
        publish: true,
        interval_ms: delay,
    }
}

} // verus!
