//! The single-subscriber publish path from anywhere in the device to the
//! root device's event handler.

use crate::device::Device;
use crate::schedule::Schedule;
use crate::supervisor::Supervisor;
use core::marker::PhantomData;
use vstd::prelude::*;

verus! {

/// The capability of a device to consume events of type `E` that are raised
/// on the device itself rather than sent to one actor.
///
/// The handler is given the supervisor, so that it can pass the event on to
/// the actors that care about it.
pub trait EventConsumer<E>: Device {
    /// Relates the device and its schedule before and after the device
    /// consumed `event`.
    ///
    /// A device that says nothing of its handler keeps this body; one that is
    /// verified can state here what its handler does.
    open spec fn consumes(
        pre: Self,
        before: Schedule<Self::Message, Self::Reply, Self::Task>,
        event: E,
        post: Self,
        after: Schedule<Self::Message, Self::Reply, Self::Task>,
    ) -> bool {
        true
    }

    /// Consumes `event`.
    fn on_event(&mut self, event: E, supervisor: &mut Supervisor<Self::Message, Self::Reply, Self::Task>)
        ensures
            Self::consumes(*old(self), old(supervisor)@, event, *final(self), final(supervisor)@),
    ;
}

/// The event bus of a device of type `D`.
///
/// The bus has one subscriber, the device, fixed by its type when the bus is
/// made. It holds no events and has no state: publishing is one call of the
/// device's handler.
pub struct EventBus<D> {
    device: PhantomData<D>,
}

impl<D> EventBus<D> {
    /// The bus of a device of type `D`.
    pub fn new() -> (bus: Self) {
        EventBus { device: PhantomData }
    }
}

impl<D: Device> EventBus<D> {
    /// Hands `event` to the device's handler, once, before returning.
    ///
    /// Nothing is buffered, dropped or merged: each call is one consumption,
    /// so publishing the same event twice makes the device consume it twice,
    /// the second time in the state that the first left behind.
    pub fn publish<E>(
        &self,
        device: &mut D,
        supervisor: &mut Supervisor<D::Message, D::Reply, D::Task>,
        event: E,
    ) where D: EventConsumer<E>
        ensures
            D::consumes(*old(device), old(supervisor)@, event, *final(device), final(supervisor)@),
    {
        device.on_event(event, supervisor)
    }
}

impl<D> Clone for EventBus<D> {
    fn clone(&self) -> (copy: Self)
        ensures
            copy == *self,
    {
        EventBus { device: PhantomData }
    }
}

impl<D> Copy for EventBus<D> {

}

} // verus!
