//! The receiving ends of the channels between the tasks, as `embassy_sync`
//! provides them. The channels are guarded by a critical section, which
//! every caller can enter. They are shared with the other tasks, so nothing
//! is known beforehand of what a receiver hands out.

use crate::buttons::{ButtonState, QUEUE_CAPACITY};
use crate::sense_pa::PressureMeasurement;
use embassy_sync::blocking_mutex::raw::CriticalSectionRawMutex;
use vstd::prelude::*;

verus! {

/// Receivers that the pressure channel has room for.
pub const PRESSURE_CONSUMERS: usize = 3;

/// A receiver of the pressure channel: an `embassy_sync::watch::Receiver` of
/// a `Watch` behind a `CriticalSectionRawMutex`.
#[verifier::external_body]
pub struct PressureReceiver<'a> {
    pub receiver: embassy_sync::watch::Receiver<
        'a,
        CriticalSectionRawMutex,
        PressureMeasurement,
        PRESSURE_CONSUMERS,
    >,
}

/// The receiver of the input queue: an `embassy_sync::channel::Receiver` of
/// a `Channel` behind a `CriticalSectionRawMutex`.
#[verifier::external_body]
pub struct InputReceiver<'ch> {
    pub receiver: embassy_sync::channel::Receiver<
        'ch,
        CriticalSectionRawMutex,
        ButtonState,
        QUEUE_CAPACITY,
    >,
}

/// `Rcv::try_get` on the receiver of a `Watch`: the value that the channel
/// holds, without waiting; `None` while it holds none.
#[verifier::external_body]
pub(crate) fn latest_pressure(receiver: &mut PressureReceiver<'_>) -> Option<PressureMeasurement> {
    receiver.receiver.try_get()
}

/// `Receiver::try_receive` on the receiver of a `Channel`: the oldest event
/// in the queue, taken out of it, without waiting; `None` while the queue is
/// empty.
#[verifier::external_body]
pub(crate) fn pending_input(receiver: &InputReceiver<'_>) -> Option<ButtonState> {
    receiver.receiver.try_receive().ok()
}

} // verus!
