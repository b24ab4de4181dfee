//! General hardware-abstraction types.

use vstd::prelude::*;

pub mod i2c;

verus! {

/// Denotes whether a signal is active-high or active-low.
#[derive(Copy, Clone, Debug, PartialEq, Eq, Structural)]
pub enum Active {
    High,
    Low,
}

} // verus!
