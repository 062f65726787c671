use air_dashboard::buttons::{ButtonState, QUEUE_CAPACITY};
use air_dashboard::channels::{InputReceiver, PressureReceiver, PRESSURE_CONSUMERS};
use air_dashboard::display::{poll_cycle, Bindings, Shown};
use air_dashboard::sense_co2::Co2Measurement;
use air_dashboard::sense_pa::PressureMeasurement;
use embassy_sync::blocking_mutex::raw::CriticalSectionRawMutex;
use embassy_sync::channel::{Channel, TrySendError};
use embassy_sync::watch::Watch;

type PressureWatch = Watch<CriticalSectionRawMutex, PressureMeasurement, PRESSURE_CONSUMERS>;
type InputQueue = Channel<CriticalSectionRawMutex, ButtonState, QUEUE_CAPACITY>;

fn channels() -> (&'static PressureWatch, &'static InputQueue) {
    (Box::leak(Box::new(Watch::new())), Box::leak(Box::new(Channel::new())))
}

fn pressure_receiver(watch: &'static PressureWatch) -> PressureReceiver<'static> {
    PressureReceiver { receiver: watch.receiver().unwrap() }
}

fn input_receiver(queue: &'static InputQueue) -> InputReceiver<'static> {
    InputReceiver { receiver: queue.receiver() }
}

fn scrolled(shown: &Shown) -> String {
    match shown {
        Shown::Focused { text, .. } => text.as_str().to_string(),
        other => panic!("not a focused readout: {:?}", other),
    }
}

#[test]
fn cycle_is_skipped_until_pressure_is_published() {
    let (watch, queue) = channels();
    let mut pressure = pressure_receiver(watch);
    let inputs = input_receiver(queue);
    queue.try_send(ButtonState::B).unwrap();
    let co2 = Co2Measurement::new(900, 4500, 2112);

    let cycle = poll_cycle(&co2, &mut pressure, &inputs, &Bindings::standard());
    assert!(cycle.pressure.is_none());
    assert!(cycle.event.is_none());
    assert!(cycle.outcome.is_none());
    // the event is still in the queue
    assert_eq!(queue.len(), 1);

    watch.sender().send(PressureMeasurement::new(101325, 2112));
    let cycle = poll_cycle(&co2, &mut pressure, &inputs, &Bindings::standard());
    assert_eq!(cycle.pressure, Some(PressureMeasurement::new(101325, 2112)));
    assert_eq!(cycle.event, Some(ButtonState::B));
    assert_eq!(scrolled(cycle.outcome.unwrap().as_ref().unwrap()), " 900 ppm");
    assert_eq!(queue.len(), 0);
}

#[test]
fn latest_published_value_wins() {
    let (watch, queue) = channels();
    let mut pressure = pressure_receiver(watch);
    let inputs = input_receiver(queue);
    let sender = watch.sender();
    // 10 C = 50 F, then 30 C = 86 F, both before any read
    sender.send(PressureMeasurement::new(100000, 1000));
    sender.send(PressureMeasurement::new(100000, 3000));
    queue.try_send(ButtonState::A).unwrap();
    let co2 = Co2Measurement::new(900, 4500, 2112);

    let cycle = poll_cycle(&co2, &mut pressure, &inputs, &Bindings::standard());
    assert_eq!(cycle.pressure, Some(PressureMeasurement::new(100000, 3000)));
    assert_eq!(scrolled(cycle.outcome.unwrap().as_ref().unwrap()), " 86 F");
}

#[test]
fn every_receiver_sees_the_latest_value() {
    let (watch, queue) = channels();
    let mut first = pressure_receiver(watch);
    let mut second = pressure_receiver(watch);
    let inputs = input_receiver(queue);
    let co2 = Co2Measurement::new(900, 4500, 2112);
    watch.sender().send(PressureMeasurement::new(100000, 1000));
    let bindings = Bindings::standard();
    assert!(poll_cycle(&co2, &mut first, &inputs, &bindings).pressure.is_some());
    assert!(poll_cycle(&co2, &mut first, &inputs, &bindings).pressure.is_some());
    assert_eq!(
        poll_cycle(&co2, &mut second, &inputs, &bindings).pressure,
        Some(PressureMeasurement::new(100000, 1000))
    );
}

#[test]
fn events_are_taken_one_per_cycle_in_order() {
    let (watch, queue) = channels();
    let mut pressure = pressure_receiver(watch);
    let inputs = input_receiver(queue);
    watch.sender().send(PressureMeasurement::new(101325, 2112));
    queue.try_send(ButtonState::C).unwrap();
    queue.try_send(ButtonState::A).unwrap();
    queue.try_send(ButtonState::B).unwrap();
    let co2 = Co2Measurement::new(900, 4500, 2112);
    let bindings = Bindings::standard();

    let texts: Vec<String> = (0..3)
        .map(|_| {
            let cycle = poll_cycle(&co2, &mut pressure, &inputs, &bindings);
            scrolled(cycle.outcome.unwrap().as_ref().unwrap())
        })
        .collect();
    assert_eq!(texts, vec![" 45 %", " 70 F", " 900 ppm"]);

    let cycle = poll_cycle(&co2, &mut pressure, &inputs, &bindings);
    assert!(cycle.event.is_none());
    assert!(matches!(cycle.outcome, Some(Ok(Shown::Dashboard { .. }))));
}

#[test]
fn fourth_event_waits_for_a_free_slot() {
    let (watch, queue) = channels();
    let mut pressure = pressure_receiver(watch);
    let inputs = input_receiver(queue);
    watch.sender().send(PressureMeasurement::new(101325, 2112));
    queue.try_send(ButtonState::A).unwrap();
    queue.try_send(ButtonState::B).unwrap();
    queue.try_send(ButtonState::C).unwrap();
    assert!(matches!(queue.try_send(ButtonState::A), Err(TrySendError::Full(ButtonState::A))));

    let co2 = Co2Measurement::new(900, 4500, 2112);
    let cycle = poll_cycle(&co2, &mut pressure, &inputs, &Bindings::standard());
    assert_eq!(cycle.event, Some(ButtonState::A));
    assert!(queue.try_send(ButtonState::A).is_ok());
    assert!(queue.is_full());
}

#[test]
fn cycle_runs_on_shared_channels() {
    // channels as the tasks share them; a test does not run on the main thread
    static WATCH: PressureWatch = Watch::new();
    static QUEUE: InputQueue = Channel::new();
    WATCH.sender().send(PressureMeasurement::new(101325, 2112));
    QUEUE.try_send(ButtonState::C).unwrap();
    let mut pressure = pressure_receiver(&WATCH);
    let inputs = input_receiver(&QUEUE);
    let co2 = Co2Measurement::new(900, 4500, 2112);
    let cycle = poll_cycle(&co2, &mut pressure, &inputs, &Bindings::standard());
    assert_eq!(scrolled(cycle.outcome.unwrap().as_ref().unwrap()), " 45 %");
}
