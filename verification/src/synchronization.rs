//! Exclusive, first-come-first-served access to a shared resource.
//!
//! A [`Mutex`] owns a resource, such as a bus that several actors talk over.
//! Whoever wants the resource asks with [`Mutex::lock`]. The answer is a
//! completion: the guard at once, where the mutex is free and nobody waits,
//! else a place in the waiting line, with which [`Mutex::acquire`] resumes
//! the wait until the guard is handed out. A caller that cannot wait, such as
//! an interrupt handler, takes a place with [`Mutex::enqueue`] and leaves the
//! waiting to others. The guard carries the resource itself, so nobody else
//! can touch it while the guard is out; [`Mutex::unlock`] brings it back and
//! lets the next in line in.
//!
//! The guard is handed out in the exact order in which the requests
//! arrived, to one holder at a time; the lemmas of [`Line`] say so.

use crate::actor::Actor;
use crate::address::Address;
use crate::handler::Completion;
use std::collections::VecDeque;
use vstd::prelude::*;

verus! {

/// The waiting line of a mutex: who holds the guard, who waits for it in
/// which order, and how many places have been handed out so far.
///
/// Places are numbered in order of arrival, starting at zero.
pub struct Line {
    pub holder: Option<nat>,
    pub waiters: Seq<nat>,
    pub issued: nat,
}

impl Line {
    /// The line of a mutex that nobody has asked for yet.
    pub open spec fn empty() -> Line {
        Line { holder: None, waiters: Seq::empty(), issued: 0 }
    }

    /// How many requests have been served so far: they hold the guard or
    /// have given it back.
    pub open spec fn served(self) -> int {
        self.issued - self.waiters.len()
    }

    /// Those who wait are the requests that arrived last, in the order of
    /// their arrival, and the holder is one that arrived before them.
    pub open spec fn wf(self) -> bool {
        &&& self.waiters.len() <= self.issued
        &&& forall|i: int| 0 <= i < self.waiters.len() ==> #[trigger] self.waiters[i] == self.served() + i
        &&& self.holder matches Some(h) ==> h < self.served()
    }

    /// The line after one more request joined at its end.
    pub open spec fn enqueue(self) -> Line {
        Line { waiters: self.waiters.push(self.issued), issued: self.issued + 1, ..self }
    }

    /// Whether the guard can be handed to `ticket` now: nobody holds it and
    /// `ticket` is first in line.
    pub open spec fn grantable(self, ticket: nat) -> bool {
        &&& self.holder is None
        &&& self.waiters.len() > 0
        &&& self.waiters[0] == ticket
    }

    /// The line after the guard was handed to the first in line.
    pub open spec fn grant(self) -> Line {
        Line { holder: Some(self.waiters[0]), waiters: self.waiters.skip(1), ..self }
    }

    /// The line after the holder gave the guard back.
    pub open spec fn release(self) -> Line {
        Line { holder: None, ..self }
    }

    /// Joining the line keeps it well formed.
    pub proof fn lemma_enqueue_wf(self)
        requires
            self.wf(),
        ensures
            self.enqueue().wf(),
    {
    }

    /// Handing out the guard keeps the line well formed.
    pub proof fn lemma_grant_wf(self)
        requires
            self.wf(),
            self.grantable(self.waiters[0]),
        ensures
            self.grant().wf(),
    {
    }

    /// Giving the guard back keeps the line well formed.
    pub proof fn lemma_release_wf(self)
        requires
            self.wf(),
        ensures
            self.release().wf(),
    {
    }

    /// The guard is out at most once: while someone holds it, it can be
    /// handed to nobody, and handing it out makes the receiver the holder.
    pub proof fn lemma_one_holder(self, ticket: nat)
        ensures
            self.holder is Some ==> !self.grantable(ticket),
            self.grantable(ticket) ==> self.grant().holder == Some(ticket),
            self.grantable(ticket) ==> forall|other: nat| !self.grant().grantable(other),
    {
    }

    /// The guard is handed out in the exact order of arrival: whoever can
    /// be handed the guard is the request that arrived right after all that
    /// were served before.
    pub proof fn lemma_next_in_line(self, ticket: nat)
        requires
            self.wf(),
            self.grantable(ticket),
        ensures
            ticket == self.served(),
            self.grant().served() == self.served() + 1,
    {
    }

    /// No request overtakes an earlier one.
    ///
    /// Of two requests, `first` arrived earlier. As long as `first` waits,
    /// `second` neither can be handed the guard nor holds it, whether it
    /// waits already or has yet to arrive.
    pub proof fn lemma_arrival_order(self, first: nat, second: nat)
        requires
            self.wf(),
            self.waiters.contains(first),
            first < second,
        ensures
            !self.grantable(second),
            self.holder != Some(second),
    {
        let i: int = choose|i: int| 0 <= i < self.waiters.len() && self.waiters[i] == first;
        assert(self.waiters[i] == self.served() + i);
        if self.waiters.len() > 0 {
            assert(self.waiters[0] == self.served());
        }
    }

    /// A request that joins now has arrived after everyone in the line.
    pub proof fn lemma_newcomer_is_last(self)
        requires
            self.wf(),
        ensures
            self.enqueue().waiters.last() == self.issued,
            forall|i: int| 0 <= i < self.waiters.len() ==> #[trigger] self.waiters[i] < self.issued,
            self.holder matches Some(h) ==> h < self.issued,
    {
    }
}

/// A place in the waiting line of a mutex.
#[derive(Copy, Clone, Debug, PartialEq, Eq, Structural)]
pub struct Ticket {
    number: u64,
}

impl Ticket {
    /// The number of the place: how many requests arrived earlier.
    pub closed spec fn number(&self) -> nat {
        self.number as nat
    }

    /// The number of the place, for display and comparison.
    pub fn position(&self) -> (position: u64)
        ensures
            position == self.number(),
    {
        self.number
    }
}

/// The guard of a mutex: exclusive possession of the resource.
///
/// The guard holds the resource itself. It is meant to go back to its mutex
/// with [`Mutex::unlock`]; a guard that is dropped takes the resource with
/// it, and the mutex stays locked.
pub struct Exclusive<T> {
    ticket: Ticket,
    value: T,
}

impl<T> Exclusive<T> {
    /// The place in line that the guard was handed to.
    pub closed spec fn ticket(&self) -> Ticket {
        self.ticket
    }

    /// The resource that the guard holds.
    pub closed spec fn resource(&self) -> T {
        self.value
    }

    /// The place in line that the guard was handed to.
    pub fn holder(&self) -> (ticket: Ticket)
        ensures
            ticket == self.ticket(),
    {
        self.ticket
    }

    /// Read access to the resource.
    pub fn get(&self) -> (resource: &T)
        ensures
            *resource == self.resource(),
    {
        &self.value
    }

    /// Write access to the resource; the guard stays with its place in line.
    pub fn get_mut(&mut self) -> (resource: &mut T)
        ensures
            *resource == old(self).resource(),
            final(self).resource() == *final(resource),
            final(self).ticket() == old(self).ticket(),
    {
        &mut self.value
    }
}

/// A shared resource of type `T` with its waiting line.
pub struct Mutex<T> {
    resource: Option<T>,
    holder: Option<u64>,
    waiters: VecDeque<u64>,
    issued: u64,
}

impl<T> View for Mutex<T> {
    type V = Line;

    closed spec fn view(&self) -> Line {
        Line {
            holder: match self.holder {
                Some(h) => Some(h as nat),
                None => None,
            },
            waiters: self.waiters@.map_values(|t: u64| t as nat),
            issued: self.issued as nat,
        }
    }
}

impl<T> Mutex<T> {
    #[verifier::type_invariant]
    spec fn inv(self) -> bool {
        &&& self@.wf()
        &&& self.holder is None ==> self.resource is Some
    }

    /// The resource, while it is in the mutex; `None` while a guard is out.
    pub closed spec fn resource(&self) -> Option<T> {
        self.resource
    }

    /// A mutex around `resource`, unlocked, with nobody waiting.
    pub fn new(resource: T) -> (mutex: Self)
        ensures
            mutex@ == Line::empty(),
            mutex.resource() == Some(resource),
    {
        let mutex = Mutex { resource: Some(resource), holder: None, waiters: VecDeque::new(), issued: 0 };
        assert(mutex@.waiters =~= Seq::empty());
        mutex
    }

    /// Whether one more request can join the line: the numbering of places is
    /// not used up.
    pub fn has_room(&self) -> (room: bool)
        ensures
            room == (self@.issued < u64::MAX),
            self@.wf(),
            self@.holder is None ==> self.resource() is Some,
    {
        proof {
            use_type_invariant(self);
        }
        self.issued < u64::MAX
    }

    /// Joins the waiting line at its end and returns the place taken.
    ///
    /// This never suspends and never fails for contention, so it is the form
    /// for callers that cannot wait, such as interrupt handlers. The guard
    /// itself comes from [`Mutex::acquire`].
    pub fn enqueue(&mut self) -> (ticket: Ticket)
        requires
            old(self)@.issued < u64::MAX,
        ensures
            final(self)@ == old(self)@.enqueue(),
            final(self)@.wf(),
            ticket.number() == old(self)@.issued,
            final(self).resource() == old(self).resource(),
    {
        proof {
            use_type_invariant(&*self);
            old(self)@.lemma_enqueue_wf();
        }
        let number: u64 = self.issued;
        let ghost before = self.waiters@;
        let mut waiters = VecDeque::new();
        core::mem::swap(&mut self.waiters, &mut waiters);
        self.issued = number + 1;
        waiters.push_back(number);
        assert(waiters@.map_values(|t: u64| t as nat) =~= before.map_values(|t: u64| t as nat).push(
            number as nat,
        ));
        self.waiters = waiters;
        Ticket { number }
    }

    /// Resumes the wait of `ticket`: resolves to the guard if it is its
    /// turn.
    ///
    /// The completion is immediate exactly when nobody holds the guard and
    /// `ticket` is first in line; the mutex then gives up the resource to
    /// the guard. Otherwise nothing changes, and the completion is deferred
    /// with the same ticket, to be resumed later.
    pub fn acquire(&mut self, ticket: Ticket) -> (completion: Completion<Exclusive<T>, Ticket>)
        ensures
            completion is Immediate <==> old(self)@.grantable(ticket.number()),
            final(self)@.wf(),
            match completion {
                Completion::Immediate(exclusive) => {
                    &&& exclusive.ticket() == ticket
                    &&& old(self).resource() == Some(exclusive.resource())
                    &&& final(self)@ == old(self)@.grant()
                    &&& final(self).resource() is None
                },
                Completion::Deferred(again) => again == ticket && *final(self) == *old(self),
            },
    {
        proof {
            use_type_invariant(&*self);
        }
        if self.holder.is_some() || self.waiters.len() == 0 {
            return Completion::Deferred(ticket);
        }
        if self.waiters[0] != ticket.number {
            return Completion::Deferred(ticket);
        }
        let ghost before = self.waiters@;
        proof {
            old(self)@.lemma_grant_wf();
        }
        let mut waiters = VecDeque::new();
        core::mem::swap(&mut self.waiters, &mut waiters);
        let _ = waiters.pop_front();
        assert(waiters@.map_values(|t: u64| t as nat) =~= before.map_values(|t: u64| t as nat).skip(1));
        self.waiters = waiters;
        self.holder = Some(ticket.number);
        let mut resource = None;
        core::mem::swap(&mut self.resource, &mut resource);
        match resource {
            Some(value) => Completion::Immediate(Exclusive { ticket, value }),
            None => Completion::Deferred(ticket),
        }
    }

    /// Asks for the guard: joins the waiting line and resolves to the guard
    /// once the caller is first in line and nobody holds it.
    ///
    /// The completion is immediate exactly when the mutex is free and nobody
    /// waits. Otherwise it is deferred with the place taken in the line, and
    /// [`Mutex::acquire`] resumes the wait.
    pub fn lock(&mut self) -> (completion: Completion<Exclusive<T>, Ticket>)
        requires
            old(self)@.issued < u64::MAX,
        ensures
            completion is Immediate <==> old(self)@.holder is None && old(self)@.waiters.len() == 0,
            final(self)@.wf(),
            match completion {
                Completion::Immediate(exclusive) => {
                    &&& exclusive.ticket().number() == old(self)@.issued
                    &&& old(self).resource() == Some(exclusive.resource())
                    &&& final(self)@ == old(self)@.enqueue().grant()
                    &&& final(self).resource() is None
                },
                Completion::Deferred(ticket) => {
                    &&& ticket.number() == old(self)@.issued
                    &&& final(self)@ == old(self)@.enqueue()
                    &&& final(self).resource() == old(self).resource()
                },
            },
    {
        proof {
            use_type_invariant(&*self);
        }
        let ticket = self.enqueue();
        proof {
            let before = old(self)@;
            if before.waiters.len() > 0 {
                assert(self@.waiters[0] == before.waiters[0]);
                assert(before.waiters[0] < before.issued);
            } else {
                assert(self@.waiters[0] == before.issued);
            }
        }
        self.acquire(ticket)
    }

    /// Takes the guard back and frees the mutex for the next in line.
    ///
    /// A guard that this mutex did not hand out, or whose resource is back
    /// already, is returned unchanged in `Err`, and the mutex stays as it was.
    pub fn unlock(&mut self, guard: Exclusive<T>) -> (outcome: Result<(), Exclusive<T>>)
        ensures
            outcome is Ok <==> old(self)@.holder == Some(guard.ticket().number()),
            final(self)@.wf(),
            match outcome {
                Ok(_) => {
                    &&& final(self)@ == old(self)@.release()
                    &&& final(self).resource() == Some(guard.resource())
                },
                Err(returned) => returned == guard && *final(self) == *old(self),
            },
    {
        proof {
            use_type_invariant(&*self);
            old(self)@.lemma_release_wf();
        }
        match self.holder {
            Some(h) => {
                if h == guard.ticket.number {
                    self.resource = Some(guard.value);
                    self.holder = None;
                    Ok(())
                } else {
                    Err(guard)
                }
            },
            None => Err(guard),
        }
    }

    /// Whether a guard is out.
    pub fn is_locked(&self) -> (locked: bool)
        ensures
            locked == (self@.holder is Some),
    {
        self.holder.is_some()
    }

    /// How many requests wait for the guard.
    pub fn waiting(&self) -> (count: usize)
        ensures
            count == self@.waiters.len(),
    {
        self.waiters.len()
    }
}

/// A mutex is mounted like any actor, so that it has an address. It needs
/// no configuration and has nothing to set up.
impl<T> Actor for Mutex<T> {
    type Configuration = ();

    type Task = ();

    fn on_mount(&mut self, configuration: (), address: Address<Self>) -> (completion: Completion<(), ()>)
        ensures
            completion == Completion::<(), ()>::Immediate(()),
            *final(self) == *old(self),
    {
        Completion::immediate(())
    }
}

} // verus!
