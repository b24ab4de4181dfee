//! What a handler returns, and the capability to handle an event type.

use vstd::prelude::*;

verus! {

/// The outcome of handling one event.
///
/// `Immediate` carries the reply, which is known already. `Deferred` carries
/// the captured state of a computation that is not finished: the supervisor
/// keeps it in the actor's slot and hands it back to be resumed on a later
/// tick, until resuming yields `Immediate`.
#[derive(Debug, PartialEq, Eq)]
pub enum Completion<R, T> {
    Immediate(R),
    Deferred(T),
}

impl<R, T> Completion<R, T> {
    /// A completion that is resolved already, with `reply`.
    pub fn immediate(reply: R) -> (completion: Self)
        ensures
            completion == Completion::<R, T>::Immediate(reply),
    {
        Completion::Immediate(reply)
    }

    /// A completion that still has work to do, captured in `task`.
    pub fn defer(task: T) -> (completion: Self)
        ensures
            completion == Completion::<R, T>::Deferred(task),
    {
        Completion::Deferred(task)
    }

    /// Whether the completion is resolved.
    pub fn is_immediate(&self) -> (resolved: bool)
        ensures
            resolved == (*self is Immediate),
    {
        match self {
            Completion::Immediate(_) => true,
            Completion::Deferred(_) => false,
        }
    }
}

/// The capability to handle events of type `E`.
///
/// An actor implements it once for each event type it cares about. That an
/// actor has no handler for some type is settled when the program is built:
/// such an event cannot be handed to it.
pub trait NotificationHandler<E>: Sized {
    /// What the handler answers with once its work is done.
    type Reply;

    /// The captured state of work that the handler defers.
    type Task;

    /// Handles `event`.
    fn on_notification(&mut self, event: E) -> Completion<Self::Reply, Self::Task>;
}

} // verus!
