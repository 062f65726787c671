//! The barometric pressure sensor: its measurement as the tasks pass it on.

use crate::acquisition::{Identification, Profile, ReadFailure, StartCommand};
use crate::fixed::{
    clamp_i8, decimal, fahrenheit_parts, first_decimal, saturate_i8, whole, whole_part,
};
use crate::power::PowerMode;
use crate::sense_co2::SETTLE_MS;
use vstd::prelude::*;

verus! {

/// One reading of the pressure sensor, split for display: the pressure into
/// whole hectopascal and hundredths, the temperatures into whole degrees and
/// one decimal digit.
#[derive(Clone, Copy, Debug, PartialEq, Eq, Structural)]
pub struct PressureMeasurement {
    /// Pressure in hectopascal, whole part.
    pub hpa: i32,
    /// Pressure, hundredths of a hectopascal beyond the whole part: 0 to 99.
    pub hpa_dec: u8,
    /// Temperature in degrees Celsius, whole part.
    pub temp_c: i8,
    /// Temperature in degrees Celsius, first decimal digit.
    pub temp_c_dec: u8,
    /// Temperature in degrees Fahrenheit, whole part.
    pub temp_f: i8,
    /// Temperature in degrees Fahrenheit, first decimal digit.
    pub temp_f_dec: u8,
}

/// The hundredths of a hectopascal in a pressure in pascal, beyond the whole
/// hectopascal; 0 for a negative pressure.
pub open spec fn hpa_hundredths(pa: int) -> int {
    if pa >= 0 {
        pa % 100
    } else {
        0
    }
}

impl PressureMeasurement {
    /// The measurement for a pressure in pascal and a temperature in
    /// hundredths of a degree Celsius. Whole parts are rounded toward zero,
    /// those of the temperatures held to the range of an `i8`; the decimal
    /// part of a negative value is 0. The Fahrenheit fields are those of
    /// C * 9 / 5 + 32.
    pub open spec fn reading(pa: int, temp_c: int) -> PressureMeasurement {
        PressureMeasurement {
            hpa: whole_part(pa, 100) as i32,
            hpa_dec: hpa_hundredths(pa) as u8,
            temp_c: clamp_i8(whole_part(temp_c, 100)) as i8,
            temp_c_dec: first_decimal(temp_c, 100) as u8,
            temp_f: clamp_i8(whole_part(fahrenheit_parts(temp_c), 500)) as i8,
            temp_f_dec: first_decimal(fahrenheit_parts(temp_c), 500) as u8,
        }
    }

    /// A measurement is well formed when it is the reading of some pressure
    /// and temperature: its Fahrenheit fields then derive from the same
    /// temperature as its Celsius fields.
    pub open spec fn wf(self) -> bool {
        exists|pa: int, temp_c: int| self == #[trigger] Self::reading(pa, temp_c)
    }

    /// Builds the measurement of one sensor reading: `pa` in pascal, `temp_c`
    /// in hundredths of a degree Celsius.
    pub fn new(pa: i32, temp_c: i32) -> (m: Self)
        ensures
            m == Self::reading(pa as int, temp_c as int),
            m.wf(),
    {
        let temp_f: i64 = temp_c as i64 * 9 + 16000;
        let m = Self {
            hpa: whole(pa as i64, 100) as i32,
            hpa_dec: if pa >= 0 {
                (pa % 100) as u8
            } else {
                0
            },
            temp_c: saturate_i8(whole(temp_c as i64, 100)),
            temp_c_dec: decimal(temp_c as i64, 100),
            temp_f: saturate_i8(whole(temp_f, 500)),
            temp_f_dec: decimal(temp_f, 500),
        };
        assert(m == Self::reading(pa as int, temp_c as int));
        m
    }
}

/// The pressure task: initialise the sensor, wait one polling interval, then
/// measure at the interval of the power mode. A measurement that fails is
/// left out; the next one is taken as usual.
pub open spec fn pressure_profile(mode: PowerMode) -> Profile {
    Profile {
        settle_ms: SETTLE_MS,
        stop_first: false,
        identify: Identification::Skipped,
        offset_tenths: None,
        start: Some(StartCommand::Initialize),
        warmup_ms: Some(mode.interval()),
        ready_check: false,
        read_failure: ReadFailure::Skip,
        compensate: false,
        publish: true,
        interval_ms: mode.interval(),
    }
}

/// The profile of the pressure task for a power mode.
pub fn profile(mode: PowerMode) -> (p: Profile)
    ensures
        p == pressure_profile(mode),
{
    Profile {
        settle_ms: SETTLE_MS,
        stop_first: false,
        identify: Identification::Skipped,
        offset_tenths: None,
        start: Some(StartCommand::Initialize),
        warmup_ms: Some(mode.interval_ms()),
        ready_check: false,
        read_failure: ReadFailure::Skip,
        compensate: false,
        publish: true,
        interval_ms: mode.interval_ms(),
    }
}

} // verus!
