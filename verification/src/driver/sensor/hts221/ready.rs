//! The sensor's data-ready signal.

use vstd::prelude::*;

verus! {

/// Tells the sensor that a new reading waits in its output registers.
///
/// It is raised from the handler of the interrupt line that the sensor's
/// DRDY pin drives.
#[derive(Copy, Clone, Debug, PartialEq, Eq, Structural)]
pub struct DataReady;

} // verus!
