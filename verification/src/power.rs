//! The power mode: one choice, made at start-up and never changed, from
//! which every task takes its cadence.

use vstd::prelude::*;

verus! {

/// The power mode of the whole device.
#[derive(Clone, Copy, Debug, PartialEq, Eq, Structural)]
pub enum PowerMode {
    /// Short polling interval, continuous sampling, calibrated for the heat
    /// that this brings.
    High,
    /// Long polling interval, low-power sampling.
    Low,
}

impl PowerMode {
    /// Polling interval in milliseconds.
    pub open spec fn interval(self) -> u64 {
        match self {
            PowerMode::High => 5_000,
            PowerMode::Low => 30_000,
        }
    }

    /// Polling interval in milliseconds.
    pub fn interval_ms(self) -> (ms: u64)
        ensures
            ms == self.interval(),
    {
        match self {
            PowerMode::High => 5_000,
            PowerMode::Low => 30_000,
        }
    }
}

} // verus!
