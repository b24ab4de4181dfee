//! Addressing of peripherals on an I2C bus.

use vstd::prelude::*;

verus! {

/// The seven-bit address of a peripheral on an I2C bus.
#[derive(Copy, Clone, Debug, PartialEq, Eq, Structural)]
pub struct I2cAddress(pub u8);

impl I2cAddress {
    /// Wraps the raw bus address.
    pub fn new(value: u8) -> (address: Self)
        ensures
            address == I2cAddress(value),
    {
        I2cAddress(value)
    }

    /// The raw bus address.
    pub fn value(&self) -> (value: u8)
        ensures
            value == self.0,
    {
        self.0
    }
}

} // verus!
