//! Verified core of a micro:bit air-quality monitor: the quantisation of
//! sensor readings into the 5x5 LED dashboard, the focused single-metric
//! readout, the input debouncer and the decisions of the sensor tasks.

pub mod acquisition;
pub mod bitmap;
pub mod buttons;
pub mod channels;
pub mod display;
pub mod fixed;
pub mod power;
pub mod readout;
pub mod sense_co2;
pub mod sense_hpa;
pub mod sense_i2c;
pub mod sense_mb;
pub mod sense_pa;
pub mod text;
