//! The sensor acquisition task: bring the sensor up once, then poll it at a
//! fixed cadence and publish what it reads.
//!
//! The task is a state machine. `action` says what the task does in a phase;
//! the caller does it and reports the result as an event; `next` gives the
//! phase that follows. What differs between the sensors is data, a `Profile`.

use vstd::prelude::*;

verus! {

/// The command that starts a sensor's sampling.
#[derive(Clone, Copy, Debug, PartialEq, Eq, Structural)]
pub enum StartCommand {
    /// Periodic measurement.
    Periodic,
    /// Low-power periodic measurement.
    LowPowerPeriodic,
    /// Initialisation with the sensor's configuration.
    Initialize,
}

/// Whether and how the sensor is asked who it is.
#[derive(Clone, Copy, Debug, PartialEq, Eq, Structural)]
pub enum Identification {
    /// The sensor is not asked.
    Skipped,
    /// The sensor is asked for its model, and for its serial number only if
    /// it told its model.
    SerialIfModel,
    /// The sensor is asked for its model and then, in any case, for its
    /// serial number.
    SerialAlways,
}

/// What the task does when a read fails.
#[derive(Clone, Copy, Debug, PartialEq, Eq, Structural)]
pub enum ReadFailure {
    /// Halt: the sensor broke its word.
    Fatal,
    /// Publish nothing in this cycle.
    Skip,
}

/// The operation whose failure halted the task.
#[derive(Clone, Copy, Debug, PartialEq, Eq, Structural)]
pub enum Fault {
    /// Setting the calibration offset.
    Calibration,
    /// Starting the sampling.
    Start,
    /// Asking whether data is ready.
    ReadyCheck,
    /// Reading a measurement that was reported ready.
    Read,
}

/// How one sensor is brought up and polled.
#[derive(Clone, Copy, Debug, PartialEq, Eq, Structural)]
pub struct Profile {
    /// Time given to the sensor after power-up, in milliseconds.
    pub settle_ms: u64,
    /// Whether a measurement that may still run is stopped first.
    pub stop_first: bool,
    /// Whether and how the sensor is asked who it is.
    pub identify: Identification,
    /// The temperature offset to set, in tenths of a degree Celsius, if any.
    pub offset_tenths: Option<u16>,
    /// The command that starts the sampling, if the sensor needs one.
    pub start: Option<StartCommand>,
    /// Time between the start and the first poll, in milliseconds, if any.
    pub warmup_ms: Option<u64>,
    /// Whether the sensor is asked for data before it is read.
    pub ready_check: bool,
    /// What a failed read leads to.
    pub read_failure: ReadFailure,
    /// Whether the ambient pressure is set before a reading is published.
    pub compensate: bool,
    /// Whether readings are published.
    pub publish: bool,
    /// Time between two polls, in milliseconds.
    pub interval_ms: u64,
}

/// Where the task stands. `T` is the reading that the task passes on.
#[derive(Debug, PartialEq, Eq)]
pub enum Phase<T> {
    /// Giving the sensor time after power-up.
    Settling,
    /// Stopping a measurement that may still run.
    Stopping,
    /// Asking the sensor for its model.
    Identifying,
    /// Asking the sensor for its serial number.
    ReadingSerial,
    /// Setting the temperature offset, in tenths of a degree Celsius.
    Calibrating(u16),
    /// Starting the sampling.
    Starting(StartCommand),
    /// Waiting this many milliseconds for the first poll.
    Warming(u64),
    /// Asking whether data is ready.
    Checking,
    /// Reading a measurement.
    Reading,
    /// Waiting for the ambient pressure, with the reading in hand.
    AwaitingPressure(T),
    /// Setting the ambient pressure, with the reading in hand.
    Compensating(T, u16),
    /// Publishing the reading.
    Publishing(T),
    /// Sleeping until the next poll.
    Sleeping,
    /// Halted for good.
    Halted(Fault),
}

/// What the task does in a phase.
#[derive(Debug, PartialEq, Eq)]
pub enum Action<T> {
    /// Sleep for this many milliseconds.
    Sleep(u64),
    /// Stop a measurement that may still run.
    Stop,
    /// Ask the sensor for its model.
    Identify,
    /// Ask the sensor for its serial number.
    ReadSerial,
    /// Set the temperature offset, in tenths of a degree Celsius.
    SetOffset(u16),
    /// Start the sampling.
    Start(StartCommand),
    /// Ask whether data is ready.
    CheckReady,
    /// Read a measurement.
    Read,
    /// Wait for the latest ambient pressure.
    AwaitPressure,
    /// Set the ambient pressure, in hectopascal.
    SetAmbientPressure(u16),
    /// Publish the reading.
    Publish(T),
    /// Halt the device.
    Halt(Fault),
}

/// What the task is told when its action is done.
#[derive(Debug, PartialEq, Eq)]
pub enum Event<T> {
    /// The sleep is over.
    Elapsed,
    /// A command ended, well or not.
    Done { ok: bool },
    /// The sensor was asked for its model; `known` if it told one.
    Identified { known: bool },
    /// The sensor said whether data is ready; `None` if asking failed.
    Ready(Option<bool>),
    /// The sensor was read; `None` if reading failed.
    Reading(Option<T>),
    /// The latest ambient pressure, in hectopascal.
    Pressure(i32),
    /// The reading is published.
    Published,
}

impl<T: Copy> Clone for Phase<T> {
    fn clone(&self) -> (copy: Self)
        ensures
            copy == *self,
    {
        *self
    }
}

impl<T: Copy> Copy for Phase<T> {}

impl<T: Copy> Clone for Action<T> {
    fn clone(&self) -> (copy: Self)
        ensures
            copy == *self,
    {
        *self
    }
}

impl<T: Copy> Copy for Action<T> {}

impl<T: Copy> Clone for Event<T> {
    fn clone(&self) -> (copy: Self)
        ensures
            copy == *self,
    {
        *self
    }
}

impl<T: Copy> Copy for Event<T> {}

/// The ambient pressure handed to the sensor: the low 16 bits of the
/// pressure in hectopascal.
pub open spec fn ambient_pressure(hpa: i32) -> u16 {
    hpa as u16
}

impl Profile {
    /// The first phase of a poll.
    pub open spec fn poll<T>(self) -> Phase<T> {
        if self.ready_check {
            Phase::Checking
        } else {
            Phase::Reading
        }
    }

    /// The phase after the start: the wait for the first poll, or the poll.
    pub open spec fn after_start<T>(self) -> Phase<T> {
        match self.warmup_ms {
            Some(ms) => Phase::Warming(ms),
            None => self.poll(),
        }
    }

    /// The phase after the calibration: the start, or what follows it.
    pub open spec fn after_calibration<T>(self) -> Phase<T> {
        match self.start {
            Some(command) => Phase::Starting(command),
            None => self.after_start(),
        }
    }

    /// The phase after the identification: the calibration, or what follows.
    pub open spec fn after_identification<T>(self) -> Phase<T> {
        match self.offset_tenths {
            Some(tenths) => Phase::Calibrating(tenths),
            None => self.after_calibration(),
        }
    }

    /// The phase after the stop: the identification, or what follows it.
    pub open spec fn after_stop<T>(self) -> Phase<T> {
        if self.identify == Identification::Skipped {
            self.after_identification()
        } else {
            Phase::Identifying
        }
    }

    /// The phase after the sensor was asked for its model: the question for
    /// its serial number where the profile asks it in any case or the sensor
    /// told its model, and otherwise what follows the identification.
    pub open spec fn after_model<T>(self, known: bool) -> Phase<T> {
        if known || self.identify == Identification::SerialAlways {
            Phase::ReadingSerial
        } else {
            self.after_identification()
        }
    }

    /// The phase after the settling time: the stop, or what follows it.
    pub open spec fn after_settling<T>(self) -> Phase<T> {
        if self.stop_first {
            Phase::Stopping
        } else {
            self.after_stop()
        }
    }

    /// The phase that passes a reading on: its publication, or the sleep
    /// where the task publishes nothing.
    pub open spec fn hand_on<T>(self, reading: T) -> Phase<T> {
        if self.publish {
            Phase::Publishing(reading)
        } else {
            Phase::Sleeping
        }
    }

    /// The phase that follows `phase` on `event`.
    ///
    /// A failed stop is passed over, and so is a sensor that does not tell
    /// its model or its serial number. A failed calibration
    /// or start halts the task, and so does a failed ready check; a failed
    /// read halts it or skips the cycle, as the profile says. A failure to
    /// set the ambient pressure is passed over. Every cycle ends in the
    /// sleep, whether data was ready or not. A halted task stays halted. An
    /// event that does not answer the phase's action leaves the phase as it
    /// is.
    pub open spec fn next_phase<T>(self, phase: Phase<T>, event: Event<T>) -> Phase<T> {
        match (phase, event) {
            (Phase::Settling, Event::Elapsed) => self.after_settling(),
            (Phase::Stopping, Event::Done { .. }) => self.after_stop(),
            (Phase::Identifying, Event::Identified { known }) => self.after_model(known),
            (Phase::ReadingSerial, Event::Done { .. }) => self.after_identification(),
            (Phase::Calibrating(_), Event::Done { ok }) => if ok {
                self.after_calibration()
            } else {
                Phase::Halted(Fault::Calibration)
            },
            (Phase::Starting(_), Event::Done { ok }) => if ok {
                self.after_start()
            } else {
                Phase::Halted(Fault::Start)
            },
            (Phase::Warming(_), Event::Elapsed) => self.poll(),
            (Phase::Checking, Event::Ready(Some(ready))) => if ready {
                Phase::Reading
            } else {
                Phase::Sleeping
            },
            (Phase::Checking, Event::Ready(None)) => Phase::Halted(Fault::ReadyCheck),
            (Phase::Reading, Event::Reading(Some(reading))) => if self.compensate {
                Phase::AwaitingPressure(reading)
            } else {
                self.hand_on(reading)
            },
            (Phase::Reading, Event::Reading(None)) => match self.read_failure {
                ReadFailure::Fatal => Phase::Halted(Fault::Read),
                ReadFailure::Skip => Phase::Sleeping,
            },
            (Phase::AwaitingPressure(reading), Event::Pressure(hpa)) => Phase::Compensating(
                reading,
                ambient_pressure(hpa),
            ),
            (Phase::Compensating(reading, _), Event::Done { .. }) => self.hand_on(reading),
            (Phase::Publishing(_), Event::Published) => Phase::Sleeping,
            (Phase::Sleeping, Event::Elapsed) => self.poll(),
            (phase, _) => phase,
        }
    }

    /// What the task does in `phase`.
    pub open spec fn action_in<T>(self, phase: Phase<T>) -> Action<T> {
        match phase {
            Phase::Settling => Action::Sleep(self.settle_ms),
            Phase::Stopping => Action::Stop,
            Phase::Identifying => Action::Identify,
            Phase::ReadingSerial => Action::ReadSerial,
            Phase::Calibrating(tenths) => Action::SetOffset(tenths),
            Phase::Starting(command) => Action::Start(command),
            Phase::Warming(ms) => Action::Sleep(ms),
            Phase::Checking => Action::CheckReady,
            Phase::Reading => Action::Read,
            Phase::AwaitingPressure(_) => Action::AwaitPressure,
            Phase::Compensating(_, hpa) => Action::SetAmbientPressure(hpa),
            Phase::Publishing(reading) => Action::Publish(reading),
            Phase::Sleeping => Action::Sleep(self.interval_ms),
            Phase::Halted(fault) => Action::Halt(fault),
        }
    }

    /// The phase that the task reaches from `phase` over a run of events.
    pub open spec fn run<T>(self, phase: Phase<T>, events: Seq<Event<T>>) -> Phase<T>
        decreases events.len(),
    {
        if events.len() == 0 {
            phase
        } else {
            self.run(self.next_phase(phase, events[0]), events.subrange(1, events.len() as int))
        }
    }

    fn poll_phase<T>(&self) -> (phase: Phase<T>)
        ensures
            phase == self.poll::<T>(),
    {
        if self.ready_check {
            Phase::Checking
        } else {
            Phase::Reading
        }
    }

    fn phase_after_start<T>(&self) -> (phase: Phase<T>)
        ensures
            phase == self.after_start::<T>(),
    {
        match self.warmup_ms {
            Some(ms) => Phase::Warming(ms),
            None => self.poll_phase(),
        }
    }

    fn phase_after_calibration<T>(&self) -> (phase: Phase<T>)
        ensures
            phase == self.after_calibration::<T>(),
    {
        match self.start {
            Some(command) => Phase::Starting(command),
            None => self.phase_after_start(),
        }
    }

    fn phase_after_identification<T>(&self) -> (phase: Phase<T>)
        ensures
            phase == self.after_identification::<T>(),
    {
        match self.offset_tenths {
            Some(tenths) => Phase::Calibrating(tenths),
            None => self.phase_after_calibration(),
        }
    }

    fn phase_after_stop<T>(&self) -> (phase: Phase<T>)
        ensures
            phase == self.after_stop::<T>(),
    {
        match self.identify {
            Identification::Skipped => self.phase_after_identification(),
            _ => Phase::Identifying,
        }
    }

    fn phase_after_model<T>(&self, known: bool) -> (phase: Phase<T>)
        ensures
            phase == self.after_model::<T>(known),
    {
        let always = match self.identify {
            Identification::SerialAlways => true,
            _ => false,
        };
        if known || always {
            Phase::ReadingSerial
        } else {
            self.phase_after_identification()
        }
    }

    fn phase_after_settling<T>(&self) -> (phase: Phase<T>)
        ensures
            phase == self.after_settling::<T>(),
    {
        if self.stop_first {
            Phase::Stopping
        } else {
            self.phase_after_stop()
        }
    }

    fn hand_on_phase<T>(&self, reading: T) -> (phase: Phase<T>)
        ensures
            phase == self.hand_on(reading),
    {
        if self.publish {
            Phase::Publishing(reading)
        } else {
            Phase::Sleeping
        }
    }

    /// The phase in which every task begins.
    pub fn first<T>(&self) -> (phase: Phase<T>)
        ensures
            phase == Phase::<T>::Settling,
    {
        Phase::Settling
    }

    /// The phase that follows `phase` on `event`.
    pub fn next<T: Copy>(&self, phase: Phase<T>, event: Event<T>) -> (following: Phase<T>)
        ensures
            following == self.next_phase(phase, event),
    {
        match (phase, event) {
            (Phase::Settling, Event::Elapsed) => self.phase_after_settling(),
            (Phase::Stopping, Event::Done { .. }) => self.phase_after_stop(),
            (Phase::Identifying, Event::Identified { known }) => self.phase_after_model(known),
            (Phase::ReadingSerial, Event::Done { .. }) => self.phase_after_identification(),
            (Phase::Calibrating(_), Event::Done { ok }) => if ok {
                self.phase_after_calibration()
            } else {
                Phase::Halted(Fault::Calibration)
            },
            (Phase::Starting(_), Event::Done { ok }) => if ok {
                self.phase_after_start()
            } else {
                Phase::Halted(Fault::Start)
            },
            (Phase::Warming(_), Event::Elapsed) => self.poll_phase(),
            (Phase::Checking, Event::Ready(Some(ready))) => if ready {
                Phase::Reading
            } else {
                Phase::Sleeping
            },
            (Phase::Checking, Event::Ready(None)) => Phase::Halted(Fault::ReadyCheck),
            (Phase::Reading, Event::Reading(Some(reading))) => if self.compensate {
                Phase::AwaitingPressure(reading)
            } else {
                self.hand_on_phase(reading)
            },
            (Phase::Reading, Event::Reading(None)) => match self.read_failure {
                ReadFailure::Fatal => Phase::Halted(Fault::Read),
                ReadFailure::Skip => Phase::Sleeping,
            },
            (Phase::AwaitingPressure(reading), Event::Pressure(hpa)) => Phase::Compensating(
                reading,
                #[verifier::truncate]
                (hpa as u16),
            ),
            (Phase::Compensating(reading, _), Event::Done { .. }) => self.hand_on_phase(reading),
            (Phase::Publishing(_), Event::Published) => Phase::Sleeping,
            (Phase::Sleeping, Event::Elapsed) => self.poll_phase(),
            (phase, _) => phase,
        }
    }

    /// What the task does in `phase`.
    pub fn action<T: Copy>(&self, phase: &Phase<T>) -> (todo: Action<T>)
        ensures
            todo == self.action_in(*phase),
    {
        match *phase {
            Phase::Settling => Action::Sleep(self.settle_ms),
            Phase::Stopping => Action::Stop,
            Phase::Identifying => Action::Identify,
            Phase::ReadingSerial => Action::ReadSerial,
            Phase::Calibrating(tenths) => Action::SetOffset(tenths),
            Phase::Starting(command) => Action::Start(command),
            Phase::Warming(ms) => Action::Sleep(ms),
            Phase::Checking => Action::CheckReady,
            Phase::Reading => Action::Read,
            Phase::AwaitingPressure(_) => Action::AwaitPressure,
            Phase::Compensating(_, hpa) => Action::SetAmbientPressure(hpa),
            Phase::Publishing(reading) => Action::Publish(reading),
            Phase::Sleeping => Action::Sleep(self.interval_ms),
            Phase::Halted(fault) => Action::Halt(fault),
        }
    }
}

/// Whether an event reports that an operation failed.
pub open spec fn is_failure<T>(event: Event<T>) -> bool {
    ||| event matches Event::Done { ok: false }
    ||| event matches Event::Ready(None)
    ||| event matches Event::Reading(None)
}

/// A halted task stays halted, whatever it is told, and asks for the halt.
pub proof fn lemma_halt_is_final<T>(profile: Profile, fault: Fault, event: Event<T>)
    ensures
        profile.next_phase(Phase::Halted(fault), event) == Phase::<T>::Halted(fault),
        profile.action_in(Phase::<T>::Halted(fault)) == Action::<T>::Halt(fault),
{
}

/// The task halts on a failure only: a step from a phase that is not halted
/// into a halted one answers a failed calibration or start, a failed ready
/// check, or a failed read under a profile that takes it as fatal.
pub proof fn lemma_halts_on_failure_only<T>(profile: Profile, phase: Phase<T>, event: Event<T>)
    requires
        !(phase is Halted),
        profile.next_phase(phase, event) is Halted,
    ensures
        match profile.next_phase(phase, event)->Halted_0 {
            Fault::Calibration => phase is Calibrating && event == (Event::<T>::Done { ok: false }),
            Fault::Start => phase is Starting && event == (Event::<T>::Done { ok: false }),
            Fault::ReadyCheck => phase is Checking && event == Event::<T>::Ready(None),
            Fault::Read => phase is Reading && event == Event::<T>::Reading(None)
                && profile.read_failure == ReadFailure::Fatal,
        },
{
}

/// A failed calibration or start halts the task.
pub proof fn lemma_mandatory_commands<T>(profile: Profile, tenths: u16, command: StartCommand)
    ensures
        profile.next_phase(Phase::<T>::Calibrating(tenths), Event::Done { ok: false })
            == Phase::<T>::Halted(Fault::Calibration),
        profile.next_phase(Phase::<T>::Starting(command), Event::Done { ok: false })
            == Phase::<T>::Halted(Fault::Start),
{
}

/// A failure to stop the sensor, to learn its model or its serial number,
/// or to set the ambient pressure halts nothing, and a failed command among
/// them changes nothing: the task goes on as after a success.
pub proof fn lemma_best_effort_commands<T>(profile: Profile, reading: T, hpa: u16)
    ensures
        profile.next_phase(Phase::<T>::Stopping, Event::Done { ok: false })
            == profile.next_phase(Phase::<T>::Stopping, Event::Done { ok: true }),
        profile.next_phase(Phase::<T>::ReadingSerial, Event::Done { ok: false })
            == profile.next_phase(Phase::<T>::ReadingSerial, Event::Done { ok: true }),
        profile.next_phase(Phase::Compensating(reading, hpa), Event::Done { ok: false })
            == profile.next_phase(Phase::Compensating(reading, hpa), Event::Done { ok: true }),
        !(profile.next_phase(Phase::<T>::Stopping, Event::Done { ok: false }) is Halted),
        !(profile.next_phase(Phase::<T>::Identifying, Event::Identified { known: false })
            is Halted),
        !(profile.next_phase(Phase::<T>::ReadingSerial, Event::Done { ok: false }) is Halted),
        !(profile.next_phase(Phase::Compensating(reading, hpa), Event::Done { ok: false })
            is Halted),
{
}

/// The serial number is asked for right after the model and at no other
/// time; under a profile that asks for it only of a sensor that told its
/// model, a sensor that did not tell is not asked, and the task goes on with
/// what follows the identification.
pub proof fn lemma_serial_follows_the_model<T>(profile: Profile, phase: Phase<T>, event: Event<T>)
    ensures
        !(phase is ReadingSerial) && profile.next_phase(phase, event) is ReadingSerial ==> {
            &&& phase is Identifying
            &&& event matches Event::Identified { known }
            &&& known || profile.identify == Identification::SerialAlways
        },
        profile.identify == Identification::SerialIfModel ==> {
            &&& profile.next_phase(Phase::<T>::Identifying, Event::Identified { known: false })
                == profile.after_identification::<T>()
            &&& !(profile.after_identification::<T>() is ReadingSerial)
            &&& profile.next_phase(Phase::<T>::Identifying, Event::Identified { known: true })
                == Phase::<T>::ReadingSerial
        },
        profile.action_in(phase) == Action::<T>::ReadSerial <==> phase is ReadingSerial,
{
}

/// The cadence is fixed: a poll that finds no data, a read that is skipped
/// and a publication all end in the sleep of one polling interval, and the
/// sleep ends in the next poll.
pub proof fn lemma_fixed_cadence<T>(profile: Profile, reading: T)
    ensures
        profile.next_phase(Phase::<T>::Checking, Event::Ready(Some(false))) == Phase::<
            T,
        >::Sleeping,
        profile.read_failure == ReadFailure::Skip ==> profile.next_phase(
            Phase::<T>::Reading,
            Event::Reading(None),
        ) == Phase::<T>::Sleeping,
        profile.next_phase(Phase::Publishing(reading), Event::Published) == Phase::<T>::Sleeping,
        profile.action_in(Phase::<T>::Sleeping) == Action::<T>::Sleep(profile.interval_ms),
        profile.next_phase(Phase::<T>::Sleeping, Event::Elapsed) == profile.poll::<T>(),
{
}

/// What is published is what was just read: from the read to the
/// publication the reading in hand is the one that the sensor delivered,
/// whatever pressure came in between and however setting it went.
pub proof fn lemma_publishes_the_reading<T>(profile: Profile, reading: T, hpa: i32, ok: bool)
    requires
        profile.publish,
    ensures
        ({
            let read = profile.next_phase(Phase::<T>::Reading, Event::Reading(Some(reading)));
            let published = if profile.compensate {
                profile.next_phase(
                    profile.next_phase(read, Event::Pressure(hpa)),
                    Event::Done { ok },
                )
            } else {
                read
            };
            &&& published == Phase::Publishing(reading)
            &&& profile.action_in(published) == Action::Publish(reading)
        }),
{
}

/// A task whose sensor never fails never halts: over a run of events none
/// of which reports a failure, a task that is not halted stays so.
pub proof fn lemma_no_failure_no_halt<T>(profile: Profile, phase: Phase<T>, events: Seq<Event<T>>)
    requires
        !(phase is Halted),
        forall|i: int| 0 <= i < events.len() ==> !is_failure(#[trigger] events[i]),
    ensures
        !(profile.run(phase, events) is Halted),
    decreases events.len(),
{
    if events.len() > 0 {
        let following = profile.next_phase(phase, events[0]);
        assert(!is_failure(events[0]));
        if following is Halted {
            lemma_halts_on_failure_only(profile, phase, events[0]);
        }
        let rest = events.subrange(1, events.len() as int);
        assert forall|i: int| 0 <= i < rest.len() implies !is_failure(#[trigger] rest[i]) by {
            assert(rest[i] == events[i + 1]);
        }
        lemma_no_failure_no_halt(profile, following, rest);
    }
}

} // verus!
