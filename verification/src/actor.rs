//! The capability to be mounted as an actor.

use crate::address::Address;
use crate::handler::Completion;
use vstd::prelude::*;

verus! {

/// An independently addressable unit of state and behaviour.
///
/// An actor is mounted once and lives as long as its device. Its state is
/// reached through its handlers only. Its inbox is kept by the supervisor,
/// which hands the actor one envelope at a time.
pub trait Actor: Sized {
    /// What the actor is given when it is mounted, such as the addresses of
    /// the actors it depends on.
    type Configuration;

    /// The captured state of setup work that the actor defers.
    type Task;

    /// Called once, when the actor is mounted: hands the actor its
    /// configuration and its own address.
    ///
    /// The actor may defer setup work. Its first envelope is delivered once
    /// that work has finished.
    fn on_mount(&mut self, configuration: Self::Configuration, address: Address<Self>) -> Completion<
        (),
        Self::Task,
    >;
}

} // verus!
