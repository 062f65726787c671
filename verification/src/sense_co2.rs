//! The CO2 sensor: its measurement as the tasks pass it on.

use crate::acquisition::{Identification, Profile, ReadFailure, StartCommand};
use crate::fixed::{
    clamp_i8, clamp_u8, decimal, fahrenheit_parts, first_decimal, saturate_i8, saturate_u8, whole,
    whole_part,
};
use crate::power::PowerMode;
use vstd::prelude::*;

verus! {

/// One reading of the CO2 sensor, split for display into whole numbers and
/// one decimal digit each.
#[derive(Clone, Copy, Debug, PartialEq, Eq, Structural)]
pub struct Co2Measurement {
    /// CO2 concentration in ppm.
    pub co2: u16,
    /// Relative humidity in percent, whole part.
    pub humidity: u8,
    /// Relative humidity, first decimal digit.
    pub humidity_dec: u8,
    /// Temperature in degrees Celsius, whole part.
    pub temp_c: i8,
    /// Temperature in degrees Celsius, first decimal digit.
    pub temp_c_dec: u8,
    /// Temperature in degrees Fahrenheit, whole part.
    pub temp_f: i8,
    /// Temperature in degrees Fahrenheit, first decimal digit.
    pub temp_f_dec: u8,
}

impl Co2Measurement {
    /// The measurement for a CO2 concentration in ppm, a humidity in
    /// hundredths of a percent and a temperature in hundredths of a degree
    /// Celsius. Whole parts are rounded toward zero and held to the range of
    /// their field; the decimal digit of a negative value is 0. The
    /// Fahrenheit fields are those of C * 9 / 5 + 32.
    pub open spec fn reading(co2: u16, humidity: int, temp_c: int) -> Co2Measurement {
        Co2Measurement {
            co2,
            humidity: clamp_u8(whole_part(humidity, 100)) as u8,
            humidity_dec: first_decimal(humidity, 100) as u8,
            temp_c: clamp_i8(whole_part(temp_c, 100)) as i8,
            temp_c_dec: first_decimal(temp_c, 100) as u8,
            temp_f: clamp_i8(whole_part(fahrenheit_parts(temp_c), 500)) as i8,
            temp_f_dec: first_decimal(fahrenheit_parts(temp_c), 500) as u8,
        }
    }

    /// A measurement is well formed when it is the reading of some humidity
    /// and temperature: its Fahrenheit fields then derive from the same
    /// temperature as its Celsius fields.
    pub open spec fn wf(self) -> bool {
        exists|humidity: int, temp_c: int| self == #[trigger] Self::reading(self.co2, humidity, temp_c)
    }

    /// Builds the measurement of one sensor reading: `humidity` in hundredths
    /// of a percent, `temp_c` in hundredths of a degree Celsius.
    pub fn new(co2: u16, humidity: i32, temp_c: i32) -> (m: Self)
        ensures
            m == Self::reading(co2, humidity as int, temp_c as int),
            m.wf(),
    {
        let temp_f: i64 = temp_c as i64 * 9 + 16000;
        let m = Self {
            co2,
            humidity: saturate_u8(whole(humidity as i64, 100)),
            humidity_dec: decimal(humidity as i64, 100),
            temp_c: saturate_i8(whole(temp_c as i64, 100)),
            temp_c_dec: decimal(temp_c as i64, 100),
            temp_f: saturate_i8(whole(temp_f, 500)),
            temp_f_dec: decimal(temp_f, 500),
        };
        assert(m == Self::reading(m.co2, humidity as int, temp_c as int));
        m
    }
}

/// Time given to a sensor after power-up, in milliseconds.
pub const SETTLE_MS: u64 = 50;

/// The model of the CO2 sensor, as the sensor reports it.
#[derive(Clone, Copy, Debug, PartialEq, Eq, Structural)]
pub enum SensorModel {
    Scd40,
    Scd41,
    Scd43,
    /// A model that this device does not know.
    Other,
}

/// The temperature offset for a power mode, in tenths of a degree Celsius:
/// 2.9 degrees at high power, none at low power.
pub open spec fn temp_offset(mode: PowerMode) -> u16 {
    match mode {
        PowerMode::High => 29,
        PowerMode::Low => 0,
    }
}

/// The sampling for a power mode: periodic at high power, low-power periodic
/// at low power.
pub open spec fn polling(mode: PowerMode) -> StartCommand {
    match mode {
        PowerMode::High => StartCommand::Periodic,
        PowerMode::Low => StartCommand::LowPowerPeriodic,
    }
}

/// The CO2 task: stop the sensor, ask it for its model and, if it tells one,
/// for its serial number, calibrate and start it, then poll it at the
/// interval of the power mode, and publish each reading once the sensor has
/// been told the ambient pressure.
pub open spec fn co2_profile(mode: PowerMode) -> Profile {
    Profile {
        settle_ms: SETTLE_MS,
        stop_first: true,
        identify: Identification::SerialIfModel,
        offset_tenths: Some(temp_offset(mode)),
        start: Some(polling(mode)),
        warmup_ms: None,
        ready_check: true,
        read_failure: ReadFailure::Fatal,
        compensate: true,
        publish: true,
        interval_ms: mode.interval(),
    }
}

/// The line that tells which sensor answered, or that none did.
pub open spec fn device_info(model: Option<SensorModel>) -> Seq<char> {
    match model {
        Some(SensorModel::Scd40) => "CO2 Sensor: SCD-40"@,
        Some(SensorModel::Scd41) => "CO2 Sensor: SCD-41"@,
        Some(SensorModel::Scd43) => "CO2 Sensor: SCD-43"@,
        Some(SensorModel::Other) => "CO2 Sensor: Unknown"@,
        None => "CO2 Sensor: Failed to read sensor"@,
    }
}

/// The line that tells which sensor answered; `None` stands for a sensor
/// that did not say.
pub fn get_device_info(model: Option<SensorModel>) -> (line: &'static str)
    ensures
        line@ == device_info(model),
{
    match model {
        Some(SensorModel::Scd40) => "CO2 Sensor: SCD-40",
        Some(SensorModel::Scd41) => "CO2 Sensor: SCD-41",
        Some(SensorModel::Scd43) => "CO2 Sensor: SCD-43",
        Some(SensorModel::Other) => "CO2 Sensor: Unknown",
        None => "CO2 Sensor: Failed to read sensor",
    }
}

/// The temperature offset to set for a power mode, in tenths of a degree
/// Celsius.
pub fn set_temp_offset(mode: PowerMode) -> (tenths: u16)
    ensures
        tenths == temp_offset(mode),
{
    match mode {
        PowerMode::High => 29,
        PowerMode::Low => 0,
    }
}

/// The command that starts the sampling for a power mode.
pub fn set_polling(mode: PowerMode) -> (command: StartCommand)
    ensures
        command == polling(mode),
{
    match mode {
        PowerMode::High => StartCommand::Periodic,
        PowerMode::Low => StartCommand::LowPowerPeriodic,
    }
}

/// The profile of the CO2 task for a power mode.
pub fn profile(mode: PowerMode) -> (p: Profile)
    ensures
        p == co2_profile(mode),
{
    Profile {
        settle_ms: SETTLE_MS,
        stop_first: true,
        identify: Identification::SerialIfModel,
        offset_tenths: Some(set_temp_offset(mode)),
        start: Some(set_polling(mode)),
        warmup_ms: None,
        ready_check: true,
        read_failure: ReadFailure::Fatal,
        compensate: true,
        publish: true,
        interval_ms: mode.interval_ms(),
    }
}

} // verus!
