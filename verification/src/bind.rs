//! Late binding of an actor to the actors it depends on.

use crate::address::Address;
use vstd::prelude::*;

verus! {

/// The capability to be told the address of a dependency of type `A`.
///
/// Binding happens once per dependency, after both actors are mounted, so
/// that actors which need each other's address can be constructed in any
/// order.
pub trait Bind<A>: Sized {
    /// Records the address of the dependency.
    fn on_bind(&mut self, address: Address<A>);
}

} // verus!
