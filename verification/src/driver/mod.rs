//! Drivers for peripherals, written as actors of the runtime.

pub mod sensor;
