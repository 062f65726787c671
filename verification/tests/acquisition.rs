use air_dashboard::acquisition::{
    Action, Event, Fault, Identification, Phase, Profile, ReadFailure, StartCommand,
};
use air_dashboard::power::PowerMode;
use air_dashboard::sense_co2::{
    get_device_info, set_polling, set_temp_offset, Co2Measurement, SensorModel,
};
use air_dashboard::sense_pa::PressureMeasurement;
use air_dashboard::{sense_co2, sense_hpa, sense_i2c, sense_mb, sense_pa};

/// Feeds `events` to a task and collects the action of every phase passed.
fn walk<T: Copy>(profile: &Profile, events: &[Event<T>]) -> (Phase<T>, Vec<Action<T>>) {
    let mut phase = profile.first();
    let mut actions = vec![profile.action(&phase)];
    for &event in events {
        phase = profile.next(phase, event);
        actions.push(profile.action(&phase));
    }
    (phase, actions)
}

#[test]
fn co2_profile_per_power_mode() {
    assert_eq!(
        sense_co2::profile(PowerMode::High),
        Profile {
            settle_ms: 50,
            stop_first: true,
            identify: Identification::SerialIfModel,
            offset_tenths: Some(29),
            start: Some(StartCommand::Periodic),
            warmup_ms: None,
            ready_check: true,
            read_failure: ReadFailure::Fatal,
            compensate: true,
            publish: true,
            interval_ms: 5_000,
        }
    );
    assert_eq!(
        sense_co2::profile(PowerMode::Low),
        Profile {
            settle_ms: 50,
            stop_first: true,
            identify: Identification::SerialIfModel,
            offset_tenths: Some(0),
            start: Some(StartCommand::LowPowerPeriodic),
            warmup_ms: None,
            ready_check: true,
            read_failure: ReadFailure::Fatal,
            compensate: true,
            publish: true,
            interval_ms: 30_000,
        }
    );
}

#[test]
fn calibration_per_power_mode() {
    assert_eq!(set_temp_offset(PowerMode::High), 29);
    assert_eq!(set_temp_offset(PowerMode::Low), 0);
    assert_eq!(set_polling(PowerMode::High), StartCommand::Periodic);
    assert_eq!(set_polling(PowerMode::Low), StartCommand::LowPowerPeriodic);
}

#[test]
fn device_info_lines() {
    assert_eq!(get_device_info(Some(SensorModel::Scd40)), "CO2 Sensor: SCD-40");
    assert_eq!(get_device_info(Some(SensorModel::Scd41)), "CO2 Sensor: SCD-41");
    assert_eq!(get_device_info(Some(SensorModel::Scd43)), "CO2 Sensor: SCD-43");
    assert_eq!(get_device_info(Some(SensorModel::Other)), "CO2 Sensor: Unknown");
    assert_eq!(get_device_info(None), "CO2 Sensor: Failed to read sensor");
}

#[test]
fn co2_task_runs_bring_up_and_one_cycle() {
    let profile = sense_co2::profile(PowerMode::High);
    let reading = Co2Measurement::new(650, 4500, 2112);
    let pressure = PressureMeasurement::new(101325, 2112);
    let (phase, actions) = walk(
        &profile,
        &[
            Event::Elapsed,
            Event::Done { ok: true },
            Event::Identified { known: true },
            Event::Done { ok: true },
            Event::Done { ok: true },
            Event::Done { ok: true },
            Event::Ready(Some(true)),
            Event::Reading(Some(reading)),
            Event::Pressure(pressure.hpa),
            Event::Done { ok: true },
            Event::Published,
            Event::Elapsed,
        ],
    );
    assert_eq!(
        actions,
        vec![
            Action::Sleep(50),
            Action::Stop,
            Action::Identify,
            Action::ReadSerial,
            Action::SetOffset(29),
            Action::Start(StartCommand::Periodic),
            Action::CheckReady,
            Action::Read,
            Action::AwaitPressure,
            Action::SetAmbientPressure(1013),
            Action::Publish(reading),
            Action::Sleep(5_000),
            Action::CheckReady,
        ]
    );
    assert_eq!(phase, Phase::Checking);
}

#[test]
fn co2_task_sleeps_when_no_data_is_ready() {
    let profile = sense_co2::profile(PowerMode::Low);
    let ready: Phase<Co2Measurement> = Phase::Checking;
    let phase = profile.next(ready, Event::Ready(Some(false)));
    assert_eq!(phase, Phase::Sleeping);
    assert_eq!(profile.action(&phase), Action::Sleep(30_000));
    assert_eq!(profile.next(phase, Event::Elapsed), Phase::Checking);
}

#[test]
fn failed_stop_and_serial_are_passed_over() {
    let profile = sense_co2::profile(PowerMode::Low);
    let (phase, actions) = walk::<Co2Measurement>(
        &profile,
        &[
            Event::Elapsed,
            Event::Done { ok: false },
            Event::Identified { known: true },
            Event::Done { ok: false },
        ],
    );
    assert_eq!(phase, Phase::Calibrating(0));
    assert_eq!(
        actions,
        vec![
            Action::Sleep(50),
            Action::Stop,
            Action::Identify,
            Action::ReadSerial,
            Action::SetOffset(0)
        ]
    );
}

#[test]
fn sensor_that_does_not_tell_its_model_is_not_asked_for_its_serial() {
    let profile = sense_co2::profile(PowerMode::High);
    let (phase, actions) = walk::<Co2Measurement>(
        &profile,
        &[Event::Elapsed, Event::Done { ok: true }, Event::Identified { known: false }],
    );
    assert_eq!(phase, Phase::Calibrating(29));
    assert_eq!(
        actions,
        vec![Action::Sleep(50), Action::Stop, Action::Identify, Action::SetOffset(29)]
    );
}

#[test]
fn plain_co2_task_asks_for_the_serial_in_any_case() {
    let profile = sense_i2c::profile();
    assert_eq!(profile.identify, Identification::SerialAlways);
    let asked: Phase<u8> = profile.next(Phase::Identifying, Event::Identified { known: false });
    assert_eq!(asked, Phase::ReadingSerial);
    let asked: Phase<u8> = profile.next(Phase::Identifying, Event::Identified { known: true });
    assert_eq!(asked, Phase::ReadingSerial);
    let after: Phase<u8> = profile.next(Phase::ReadingSerial, Event::Done { ok: false });
    assert_eq!(after, Phase::Starting(StartCommand::LowPowerPeriodic));
}

#[test]
fn tasks_that_do_not_identify_skip_both_questions() {
    assert_eq!(sense_pa::profile(PowerMode::High).identify, Identification::Skipped);
    assert_eq!(sense_hpa::profile(PowerMode::High).identify, Identification::Skipped);
    assert_eq!(sense_mb::profile(PowerMode::High).identify, Identification::Skipped);
}

#[test]
fn failed_calibration_halts() {
    let profile = sense_co2::profile(PowerMode::High);
    let phase: Phase<Co2Measurement> =
        profile.next(Phase::Calibrating(29), Event::Done { ok: false });
    assert_eq!(phase, Phase::Halted(Fault::Calibration));
    assert_eq!(profile.action(&phase), Action::Halt(Fault::Calibration));
}

#[test]
fn failed_start_halts() {
    let profile = sense_co2::profile(PowerMode::High);
    let phase: Phase<Co2Measurement> =
        profile.next(Phase::Starting(StartCommand::Periodic), Event::Done { ok: false });
    assert_eq!(phase, Phase::Halted(Fault::Start));
    let profile = sense_pa::profile(PowerMode::High);
    let phase: Phase<PressureMeasurement> =
        profile.next(Phase::Starting(StartCommand::Initialize), Event::Done { ok: false });
    assert_eq!(phase, Phase::Halted(Fault::Start));
}

#[test]
fn failed_ready_check_and_read_halt_the_co2_task() {
    let profile = sense_co2::profile(PowerMode::High);
    let phase: Phase<Co2Measurement> = profile.next(Phase::Checking, Event::Ready(None));
    assert_eq!(phase, Phase::Halted(Fault::ReadyCheck));
    let phase: Phase<Co2Measurement> = profile.next(Phase::Reading, Event::Reading(None));
    assert_eq!(phase, Phase::Halted(Fault::Read));
}

#[test]
fn halted_task_stays_halted() {
    let profile = sense_co2::profile(PowerMode::High);
    let halted: Phase<Co2Measurement> = Phase::Halted(Fault::Start);
    for event in [
        Event::Elapsed,
        Event::Done { ok: true },
        Event::Identified { known: true },
        Event::Ready(Some(true)),
        Event::Reading(Some(Co2Measurement::new(1, 2, 3))),
        Event::Pressure(1000),
        Event::Published,
    ] {
        assert_eq!(profile.next(halted, event), halted);
    }
}

#[test]
fn failed_pressure_compensation_is_passed_over() {
    let profile = sense_co2::profile(PowerMode::High);
    let reading = Co2Measurement::new(800, 5000, 2000);
    let phase = profile.next(Phase::Compensating(reading, 990), Event::Done { ok: false });
    assert_eq!(phase, Phase::Publishing(reading));
    assert_eq!(profile.action(&phase), Action::Publish(reading));
}

#[test]
fn ambient_pressure_is_the_low_16_bits() {
    let profile = sense_co2::profile(PowerMode::High);
    let reading = Co2Measurement::new(800, 5000, 2000);
    let waiting = Phase::AwaitingPressure(reading);
    assert_eq!(profile.next(waiting, Event::Pressure(1013)), Phase::Compensating(reading, 1013));
    assert_eq!(profile.next(waiting, Event::Pressure(0)), Phase::Compensating(reading, 0));
    assert_eq!(profile.next(waiting, Event::Pressure(65536 + 7)), Phase::Compensating(reading, 7));
    assert_eq!(profile.next(waiting, Event::Pressure(-1)), Phase::Compensating(reading, 65535));
}

#[test]
fn event_that_answers_nothing_changes_nothing() {
    let profile = sense_co2::profile(PowerMode::High);
    let settling: Phase<Co2Measurement> = Phase::Settling;
    assert_eq!(profile.next(settling, Event::Done { ok: true }), Phase::Settling);
    assert_eq!(profile.next(settling, Event::Published), Phase::Settling);
    let reading: Phase<Co2Measurement> = Phase::Reading;
    assert_eq!(profile.next(reading, Event::Elapsed), Phase::Reading);
    let sleeping: Phase<Co2Measurement> = Phase::Sleeping;
    assert_eq!(profile.next(sleeping, Event::Ready(Some(true))), Phase::Sleeping);
}

#[test]
fn pressure_task_waits_then_measures() {
    let profile = sense_pa::profile(PowerMode::Low);
    let reading = PressureMeasurement::new(101325, 2112);
    let (phase, actions) = walk(
        &profile,
        &[
            Event::Elapsed,
            Event::Done { ok: true },
            Event::Elapsed,
            Event::Reading(Some(reading)),
            Event::Published,
            Event::Elapsed,
            Event::Reading(None),
            Event::Elapsed,
        ],
    );
    assert_eq!(
        actions,
        vec![
            Action::Sleep(50),
            Action::Start(StartCommand::Initialize),
            Action::Sleep(30_000),
            Action::Read,
            Action::Publish(reading),
            Action::Sleep(30_000),
            Action::Read,
            Action::Sleep(30_000),
            Action::Read,
        ]
    );
    assert_eq!(phase, Phase::Reading);
}

#[test]
fn plain_pressure_task_measures_at_once() {
    let profile = sense_hpa::profile(PowerMode::High);
    assert_eq!(profile.interval_ms, 5_000);
    assert_eq!(sense_hpa::profile(PowerMode::Low).interval_ms, 30_000);
    let (phase, actions) =
        walk::<u8>(&profile, &[Event::Elapsed, Event::Done { ok: true }, Event::Reading(Some(9))]);
    assert_eq!(
        actions,
        vec![
            Action::Sleep(50),
            Action::Start(StartCommand::Initialize),
            Action::Read,
            Action::Publish(9),
        ]
    );
    assert_eq!(phase, Phase::Publishing(9));
}

#[test]
fn plain_co2_task_skips_calibration_and_compensation() {
    let profile = sense_i2c::profile();
    let (phase, actions) = walk::<u8>(
        &profile,
        &[
            Event::Elapsed,
            Event::Done { ok: false },
            Event::Identified { known: true },
            Event::Done { ok: true },
            Event::Done { ok: true },
            Event::Ready(Some(true)),
            Event::Reading(Some(1)),
            Event::Published,
        ],
    );
    assert_eq!(
        actions,
        vec![
            Action::Sleep(50),
            Action::Stop,
            Action::Identify,
            Action::ReadSerial,
            Action::Start(StartCommand::LowPowerPeriodic),
            Action::CheckReady,
            Action::Read,
            Action::Publish(1),
            Action::Sleep(30_000),
        ]
    );
    assert_eq!(phase, Phase::Sleeping);
}

#[test]
fn board_task_reads_and_publishes_nothing() {
    let profile = sense_mb::profile(PowerMode::High);
    let (phase, actions) = walk::<i32>(
        &profile,
        &[Event::Elapsed, Event::Reading(Some(101)), Event::Elapsed, Event::Reading(Some(102))],
    );
    assert_eq!(
        actions,
        vec![
            Action::Sleep(5_000),
            Action::Read,
            Action::Sleep(5_000),
            Action::Read,
            Action::Sleep(5_000),
        ]
    );
    assert_eq!(phase, Phase::Sleeping);
}
