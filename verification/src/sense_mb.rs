//! The board's own temperature sensor and serial number.

use crate::acquisition::{Identification, Profile, ReadFailure};
use crate::fixed::{clamp_u16, saturate_u16, whole, whole_part};
use crate::power::PowerMode;
use vstd::prelude::*;

verus! {

/// The board's temperature in whole degrees, for the log.
#[derive(Clone, Copy, Debug, PartialEq, Eq, Structural)]
pub struct BoardTemperature {
    /// Degrees Celsius, 0 below zero.
    pub temp_c: u16,
    /// Degrees Fahrenheit, 0 below zero.
    pub temp_f: u16,
}

/// The temperature for a reading in quarters of a degree Celsius, as the
/// board's sensor gives it: whole degrees rounded toward zero and held to the
/// range of a `u16`, Fahrenheit as C * 9 / 5 + 32.
pub open spec fn board_reading(quarters: int) -> BoardTemperature {
    BoardTemperature {
        temp_c: clamp_u16(whole_part(quarters, 4)) as u16,
        temp_f: clamp_u16(whole_part(quarters * 9 + 640, 20)) as u16,
    }
}

/// The board task: wait one polling interval, then read the temperature at
/// the interval of the power mode. Nothing is published.
pub open spec fn board_profile(mode: PowerMode) -> Profile {
    Profile {
        settle_ms: mode.interval(),
        stop_first: false,
        identify: Identification::Skipped,
        offset_tenths: None,
        start: None,
        warmup_ms: None,
        ready_check: false,
        read_failure: ReadFailure::Skip,
        compensate: false,
        publish: false,
        interval_ms: mode.interval(),
    }
}

/// The board's serial number: the low 32 bits of the 64-bit device
/// identifier, whose low word is `deviceid0` and whose high word is
/// `deviceid1`.
pub fn get_serial_number(deviceid0: u32, deviceid1: u32) -> (serial: u32)
    ensures
        serial == deviceid0,
{
    let low = deviceid0 as u64;
    let high = deviceid1 as u64;
    let device_id = (high << 32) | low;
    let masked = device_id & 0xFFFF_FFFF;
    assert(masked == low) by (bit_vector)
        requires
            masked == ((high << 32) | low) & 0xFFFF_FFFF,
            low <= 0xFFFF_FFFF,
            high <= 0xFFFF_FFFF,
    ;
    masked as u32
}

/// The temperature for a reading in quarters of a degree Celsius.
pub fn board_temperature(quarters: i32) -> (t: BoardTemperature)
    ensures
        t == board_reading(quarters as int),
{
    let fahrenheit: i64 = quarters as i64 * 9 + 640;
    BoardTemperature {
        temp_c: saturate_u16(whole(quarters as i64, 4)),
        temp_f: saturate_u16(whole(fahrenheit, 20)),
    }
}

/// The profile of the board task for a power mode.
pub fn profile(mode: PowerMode) -> (p: Profile)
    ensures
        p == board_profile(mode),
{
    Profile {
        settle_ms: mode.interval_ms(),
        stop_first: false,
        identify: Identification::Skipped,
        offset_tenths: None,
        start: None,
        warmup_ms: None,
        ready_check: false,
        read_failure: ReadFailure::Skip,
        compensate: false,
        publish: false,
        interval_ms: mode.interval_ms(),
    }
}

} // verus!
