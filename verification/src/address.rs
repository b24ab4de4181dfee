//! Handles to mounted actors.

use crate::handler::NotificationHandler;
use crate::schedule::{Envelope, RequestId};
use crate::supervisor::Supervisor;
use core::marker::PhantomData;
use vstd::prelude::*;
use vstd::std_specs::convert::FromSpec;

verus! {

/// A copyable handle to a mounted actor of type `A`.
///
/// It is the number of the actor's slot in the supervisor that mounted it,
/// typed by the actor, and owns nothing. Actors are never unmounted, so a
/// handle stays valid as long as its supervisor lives.
pub struct Address<A> {
    id: usize,
    actor: PhantomData<A>,
}

impl<A> Address<A> {
    /// The number of the actor's slot.
    pub closed spec fn index(&self) -> usize {
        self.id
    }

    pub(crate) fn new(id: usize) -> (address: Self)
        ensures
            address.index() == id,
    {
        Address { id, actor: PhantomData }
    }

    /// The number of the actor's slot.
    pub fn id(&self) -> (id: usize)
        ensures
            id == self.index(),
    {
        self.id
    }

    /// Sends `event` to the actor and returns at once: the event joins the
    /// end of the actor's inbox, as a message of the device, and nobody is
    /// told when it was handled.
    ///
    /// Only events that the actor has a handler for can be sent. An address
    /// that is not of this supervisor is refused, and nothing changes.
    pub fn notify<E, M: From<E>, R, T>(&self, supervisor: &mut Supervisor<M, R, T>, event: E) -> (accepted:
        bool) where A: NotificationHandler<E>
        ensures
            accepted == old(supervisor)@.mounted(self.index() as int),
            accepted ==> exists|message: M|
                {
                    &&& call_ensures(M::from, (event,), message)
                    &&& final(supervisor)@ == old(supervisor)@.post(
                        self.index() as int,
                        Envelope::Notification(message),
                    )
                },
            accepted && M::obeys_from_spec() ==> final(supervisor)@ == old(supervisor)@.post(
                self.index() as int,
                Envelope::Notification(M::from_spec(event)),
            ),
            !accepted ==> final(supervisor)@ == old(supervisor)@,
            final(supervisor)@.wf(),
    {
        let message = M::from(event);
        supervisor.notify(self.id, message)
    }

    /// Sends `event` to the actor and returns the handle under which the
    /// reply will wait once the actor's handler has produced it.
    ///
    /// Only events that the actor has a handler for can be sent. The request
    /// is refused, and nothing changes, where the address is not of this
    /// supervisor or the handles are used up.
    pub fn request<E, M: From<E>, R, T>(&self, supervisor: &mut Supervisor<M, R, T>, event: E) -> (handle:
        Option<RequestId>) where A: NotificationHandler<E>
        ensures
            handle is Some <==> old(supervisor)@.mounted(self.index() as int) && old(supervisor)@.requests
                < u64::MAX,
            handle matches Some(id) ==> id.number == old(supervisor)@.requests && exists|message: M|
                {
                    &&& call_ensures(M::from, (event,), message)
                    &&& final(supervisor)@ == old(supervisor)@.request(self.index() as int, message)
                },
            handle is Some && M::obeys_from_spec() ==> final(supervisor)@ == old(supervisor)@.request(
                self.index() as int,
                M::from_spec(event),
            ),
            handle is None ==> final(supervisor)@ == old(supervisor)@,
            final(supervisor)@.wf(),
    {
        let message = M::from(event);
        supervisor.request(self.id, message)
    }
}

impl<A> Clone for Address<A> {
    fn clone(&self) -> (copy: Self)
        ensures
            copy == *self,
    {
        Address { id: self.id, actor: PhantomData }
    }
}

impl<A> Copy for Address<A> {

}

} // verus!
