//! Driver for the HTS221 humidity and temperature sensor on an I2C bus.
//!
//! The driver decides and the environment moves bytes: [`sensor::Sensor`]
//! says which register to read or write next and what the bytes that came
//! back mean, and whoever owns the bus performs the transfer.

use vstd::prelude::*;

pub mod calibration;
pub mod ready;
pub mod register;
pub mod sensor;

verus! {

/// One calibrated reading of the sensor.
#[derive(Copy, Clone, Debug, PartialEq, Eq, Structural)]
pub struct SensorAcquisition {
    /// Temperature in thousandths of a degree Celsius.
    pub temperature: i64,
    /// Relative humidity in thousandths of a percent.
    pub relative_humidity: i64,
}

} // verus!
