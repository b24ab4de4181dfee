//! The supervisor: the inboxes of the mounted actors, the slots for the
//! completions of their handlers, the interrupt bindings, and the replies
//! that wait to be collected.
//!
//! The supervisor decides and its caller acts. [`Supervisor::deliver`] and
//! [`Supervisor::resume`] hand out what is to be given to a handler, and
//! [`Supervisor::settle`] takes in the completion that the handler returned.
//! What each operation does is stated over the supervisor's view, a
//! [`Schedule`].
//!
//! A supervisor is well formed at all times, also in the hands of handlers
//! that nobody has verified. To change its cells an operation takes them
//! out of the supervisor, works on them, and puts them back in one piece.

use crate::address::Address;
use crate::device::Lifecycle;
use crate::handler::Completion;
use crate::schedule::{Envelope, Mailbox, Operation, Phase, RequestId, Schedule, Slot};
use std::collections::VecDeque;
use vstd::prelude::*;

verus! {

struct Cell<M, T> {
    inbox: VecDeque<Envelope<M>>,
    slot: Slot<T>,
    interrupts: Vec<i16>,
}

impl<M, T> View for Cell<M, T> {
    type V = Mailbox<M, T>;

    closed spec fn view(&self) -> Mailbox<M, T> {
        Mailbox { inbox: self.inbox@, slot: self.slot, interrupts: self.interrupts@ }
    }
}

spec fn mailboxes<M, T>(cells: Seq<Cell<M, T>>) -> Seq<Mailbox<M, T>> {
    cells.map_values(|cell: Cell<M, T>| cell@)
}

/// Puts `event` at the end of every inbox.
fn broadcast<M, T>(cells: &mut Vec<Cell<M, T>>, event: Lifecycle)
    ensures
        final(cells)@.len() == old(cells)@.len(),
        forall|a: int|
            0 <= a < old(cells)@.len() ==> (#[trigger] final(cells)@[a])@ == old(cells)@[a]@.with(
                Envelope::Lifecycle(event),
            ),
{
    let count: usize = cells.len();
    let mut next: usize = 0;
    while next < count
        invariant
            next <= count,
            cells@.len() == count,
            old(cells)@.len() == count,
            forall|a: int|
                0 <= a < next ==> (#[trigger] cells@[a])@ == old(cells)@[a]@.with(Envelope::Lifecycle(event)),
            forall|a: int| next <= a < count ==> (#[trigger] cells@[a]) == old(cells)@[a],
        decreases count - next,
    {
        cells[next].inbox.push_back(Envelope::Lifecycle(event));
        next = next + 1;
    }
}

/// Whether `irqn` is among `interrupts`.
fn listed(interrupts: &Vec<i16>, irqn: i16) -> (found: bool)
    ensures
        found == interrupts@.contains(irqn),
{
    let mut next: usize = 0;
    while next < interrupts.len()
        invariant
            next <= interrupts.len(),
            forall|k: int| 0 <= k < next ==> interrupts@[k] != irqn,
        decreases interrupts.len() - next,
    {
        if interrupts[next] == irqn {
            return true;
        }
        next = next + 1;
    }
    false
}

/// The scheduling state of a device with messages of type `M`, replies of
/// type `R` and deferred tasks of type `T`.
pub struct Supervisor<M, R, T> {
    phase: Phase,
    actors: Vec<Cell<M, T>>,
    replies: Vec<(RequestId, R)>,
    requests: u64,
}

impl<M, R, T> View for Supervisor<M, R, T> {
    type V = Schedule<M, R, T>;

    closed spec fn view(&self) -> Schedule<M, R, T> {
        Schedule {
            phase: self.phase,
            actors: mailboxes(self.actors@),
            replies: self.replies@,
            requests: self.requests as nat,
        }
    }
}

impl<M, R, T> Supervisor<M, R, T> {
    /// Every supervisor is in a well-formed state, whoever had it in hand.
    #[verifier::type_invariant]
    pub open spec fn inv(self) -> bool {
        self@.wf()
    }

    /// A supervisor on which nothing is mounted yet.
    pub fn new() -> (supervisor: Self)
        ensures
            supervisor@ == Schedule::<M, R, T>::new(),
            supervisor@.wf(),
    {
        let actors: Vec<Cell<M, T>> = Vec::new();
        assert(mailboxes(actors@) =~= Seq::empty());
        Supervisor { phase: Phase::Mounting, actors, replies: Vec::new(), requests: 0 }
    }

    /// How far the lifecycle has come.
    pub fn phase(&self) -> (phase: Phase)
        ensures
            phase == self@.phase,
            self@.wf(),
    {
        proof {
            use_type_invariant(self);
        }
        self.phase
    }

    /// How many actors are mounted.
    pub fn actor_count(&self) -> (count: usize)
        ensures
            count == self@.actors.len(),
    {
        self.actors.len()
    }

    /// How many envelopes wait in the inbox of `actor`; zero for a number
    /// that no actor has.
    pub fn pending(&self, actor: usize) -> (count: usize)
        ensures
            count == if self@.mounted(actor as int) {
                self@.actors[actor as int].inbox.len()
            } else {
                0
            },
    {
        if actor < self.actors.len() {
            self.actors[actor].inbox.len()
        } else {
            0
        }
    }

    /// Whether nothing waits in any inbox and no completion is outstanding.
    pub fn is_quiescent(&self) -> (quiescent: bool)
        ensures
            quiescent == self@.quiescent(),
    {
        let mut next: usize = 0;
        while next < self.actors.len()
            invariant
                next <= self.actors.len(),
                forall|a: int| 0 <= a < next ==> (#[trigger] self@.actors[a]).quiet(),
            decreases self.actors.len() - next,
        {
            let idle = match &self.actors[next].slot {
                Slot::Idle => true,
                _ => false,
            };
            if !idle || self.actors[next].inbox.len() > 0 {
                assert(!self@.actors[next as int].quiet());
                return false;
            }
            next = next + 1;
        }
        true
    }

    /// Mounts one more actor and returns its address.
    ///
    /// Actors are mounted only before the lifecycle is set off; afterwards
    /// the call changes nothing and returns `None`.
    pub fn mount<A>(&mut self) -> (address: Option<Address<A>>)
        ensures
            address is Some <==> old(self)@.phase is Mounting,
            match address {
                Some(address) => address.index() == old(self)@.actors.len() && final(self)@ == old(self)@.mount(),
                None => final(self)@ == old(self)@,
            },
            final(self)@ == old(self)@.apply(Operation::Mount),
            final(self)@.wf(),
    {
        proof {
            use_type_invariant(&*self);
            old(self)@.lemma_mount_wf();
        }
        match self.phase {
            Phase::Mounting => {},
            _ => {
                return None;
            },
        }
        let mut actors: Vec<Cell<M, T>> = Vec::new();
        assert(mailboxes(actors@) =~= Seq::empty());
        core::mem::swap(&mut self.actors, &mut actors);
        let id: usize = actors.len();
        actors.push(Cell { inbox: VecDeque::new(), slot: Slot::Idle, interrupts: Vec::new() });
        assert(mailboxes(actors@) =~= old(self)@.actors.push(Mailbox::empty()));
        self.actors = actors;
        Some(Address::new(id))
    }

    /// Binds the actor at `address` to the interrupt `irqn`.
    ///
    /// Bindings are made while actors are mounted. The binding is refused,
    /// and nothing changes, once the lifecycle is set off or where the
    /// address is not of this supervisor.
    pub fn bind<A>(&mut self, irqn: i16, address: Address<A>) -> (accepted: bool)
        ensures
            accepted == (old(self)@.phase is Mounting && old(self)@.mounted(address.index() as int)),
            final(self)@ == if accepted {
                old(self)@.bind(irqn, address.index() as int)
            } else {
                old(self)@
            },
            final(self)@ == old(self)@.apply(Operation::Bind(irqn, address.index() as int)),
            final(self)@.wf(),
    {
        proof {
            use_type_invariant(&*self);
        }
        let actor: usize = address.id();
        match self.phase {
            Phase::Mounting => {},
            _ => {
                return false;
            },
        }
        if actor >= self.actors.len() {
            return false;
        }
        proof {
            old(self)@.lemma_bind_wf(irqn, actor as int);
        }
        let mut actors: Vec<Cell<M, T>> = Vec::new();
        assert(mailboxes(actors@) =~= Seq::empty());
        core::mem::swap(&mut self.actors, &mut actors);
        actors[actor].interrupts.push(irqn);
        assert(mailboxes(actors@) =~= old(self)@.bind(irqn, actor as int).actors);
        self.actors = actors;
        true
    }

    /// Whether `actor` is bound to the interrupt `irqn`.
    pub fn is_bound(&self, irqn: i16, actor: usize) -> (bound: bool)
        ensures
            bound == self@.bound(irqn, actor as int),
    {
        actor < self.actors.len() && listed(&self.actors[actor].interrupts, irqn)
    }

    /// Occupies the slot of the actor at `address` with setup work that the
    /// actor deferred when it was mounted.
    ///
    /// The work is resumed with the ticks like any deferred work, and the
    /// actor's first envelope waits until it has finished. Setup work is
    /// taken while actors are mounted, for an actor whose slot is free;
    /// otherwise the task is dropped and nothing changes.
    pub fn defer<A>(&mut self, address: Address<A>, task: T) -> (taken: bool)
        ensures
            taken == old(self)@.open_for_setup(address.index() as int),
            final(self)@ == if taken {
                old(self)@.defer(address.index() as int, task)
            } else {
                old(self)@
            },
            final(self)@ == old(self)@.apply(Operation::Defer(address.index() as int, task)),
            final(self)@.wf(),
    {
        proof {
            use_type_invariant(&*self);
        }
        let actor: usize = address.id();
        match self.phase {
            Phase::Mounting => {},
            _ => {
                return false;
            },
        }
        if actor >= self.actors.len() {
            return false;
        }
        let idle = match &self.actors[actor].slot {
            Slot::Idle => true,
            _ => false,
        };
        if !idle {
            return false;
        }
        proof {
            old(self)@.lemma_defer_wf(actor as int, task);
        }
        let mut actors: Vec<Cell<M, T>> = Vec::new();
        assert(mailboxes(actors@) =~= Seq::empty());
        core::mem::swap(&mut self.actors, &mut actors);
        actors[actor].slot = Slot::Deferred(task, None);
        assert(mailboxes(actors@) =~= old(self)@.defer(actor as int, task).actors);
        self.actors = actors;
        true
    }

    /// The actors bound to the interrupt `irqn`, in the order in which they
    /// were mounted, each once.
    pub fn bound(&self, irqn: i16) -> (actors: Vec<usize>)
        ensures
            forall|a: usize| actors@.contains(a) <==> self@.bound(irqn, a as int),
            forall|i: int, j: int| 0 <= i < j < actors@.len() ==> actors@[i] < actors@[j],
    {
        let mut found: Vec<usize> = Vec::new();
        let mut next: usize = 0;
        while next < self.actors.len()
            invariant
                next <= self.actors.len(),
                forall|a: usize| found@.contains(a) <==> a < next && self@.bound(irqn, a as int),
                forall|i: int, j: int| 0 <= i < j < found@.len() ==> found@[i] < found@[j],
                forall|i: int| 0 <= i < found@.len() ==> found@[i] < next,
            decreases self.actors.len() - next,
        {
            if listed(&self.actors[next].interrupts, irqn) {
                let ghost before = found@;
                found.push(next);
                assert forall|a: usize| found@.contains(a) <==> a < next + 1 && self@.bound(irqn, a as int) by {
                    if a == next {
                        assert(found@[before.len() as int] == a);
                    }
                    if before.contains(a) {
                        let k: int = choose|k: int| 0 <= k < before.len() && before[k] == a;
                        assert(found@[k] == a);
                    }
                }
            }
            next = next + 1;
        }
        found
    }

    fn post(&mut self, actor: usize, envelope: Envelope<M>)
        requires
            old(self)@.mounted(actor as int),
            !(envelope is Lifecycle),
        ensures
            final(self)@ == old(self)@.post(actor as int, envelope),
            final(self)@.wf(),
    {
        proof {
            use_type_invariant(&*self);
            old(self)@.lemma_post_wf(actor as int, envelope);
        }
        let mut actors: Vec<Cell<M, T>> = Vec::new();
        assert(mailboxes(actors@) =~= Seq::empty());
        core::mem::swap(&mut self.actors, &mut actors);
        actors[actor].inbox.push_back(envelope);
        assert(mailboxes(actors@) =~= old(self)@.post(actor as int, envelope).actors);
        self.actors = actors;
    }

    /// Puts `message` at the end of the inbox of `actor` and returns at
    /// once; nobody is told when it was handled.
    ///
    /// A number that no actor has is refused, and nothing changes.
    pub fn notify(&mut self, actor: usize, message: M) -> (accepted: bool)
        ensures
            accepted == old(self)@.mounted(actor as int),
            final(self)@ == if accepted {
                old(self)@.post(actor as int, Envelope::Notification(message))
            } else {
                old(self)@
            },
            final(self)@ == old(self)@.apply(Operation::Notify(actor as int, message)),
            final(self)@.wf(),
    {
        proof {
            use_type_invariant(&*self);
        }
        if actor >= self.actors.len() {
            return false;
        }
        self.post(actor, Envelope::Notification(message));
        true
    }

    /// Puts `message` at the end of the inbox of `actor` and returns the
    /// handle under which the reply will wait.
    ///
    /// A number that no actor has is refused, and so is a request when the
    /// handles are used up; then nothing changes.
    pub fn request(&mut self, actor: usize, message: M) -> (handle: Option<RequestId>)
        ensures
            handle is Some <==> old(self)@.mounted(actor as int) && old(self)@.requests < u64::MAX,
            match handle {
                Some(id) => id.number == old(self)@.requests && final(self)@ == old(self)@.request(
                    actor as int,
                    message,
                ),
                None => final(self)@ == old(self)@,
            },
            final(self)@ == old(self)@.apply(Operation::Request(actor as int, message)),
            final(self)@.wf(),
    {
        proof {
            use_type_invariant(&*self);
        }
        if actor >= self.actors.len() || self.requests == u64::MAX {
            return None;
        }
        let id = RequestId { number: self.requests };
        self.requests = self.requests + 1;
        self.post(actor, Envelope::Request(id, message));
        Some(id)
    }

    /// Collects the reply to the request `id`, if it waits.
    ///
    /// Only a reply to this very request is handed out, and each reply
    /// once.
    pub fn take_reply(&mut self, id: RequestId) -> (reply: Option<R>)
        ensures
            reply is Some <==> old(self)@.replied(id),
            match reply {
                Some(reply) => exists|position: int|
                    {
                        &&& old(self)@.reply_at(id, position)
                        &&& old(self)@.replies[position].1 == reply
                        &&& final(self)@ == old(self)@.collect(position)
                    },
                None => final(self)@ == old(self)@,
            },
            final(self)@ == old(self)@.apply(Operation::Collect(id)),
            final(self)@.wf(),
    {
        proof {
            use_type_invariant(&*self);
        }
        let mut next: usize = 0;
        while next < self.replies.len()
            invariant
                next <= self.replies.len(),
                *self == *old(self),
                self@.wf(),
                forall|k: int| 0 <= k < next ==> self@.replies[k].0 != id,
            decreases self.replies.len() - next,
        {
            if self.replies[next].0.number == id.number {
                let mut replies: Vec<(RequestId, R)> = Vec::new();
                core::mem::swap(&mut self.replies, &mut replies);
                let (_, reply) = replies.remove(next);
                self.replies = replies;
                assert(old(self)@.reply_at(id, next as int));
                assert(self@ == old(self)@.collect(next as int));
                return Some(reply);
            }
            next = next + 1;
        }
        None
    }

    /// Hands out the next envelope of `actor` for its handler.
    ///
    /// An envelope is handed out exactly when the device is past mounting,
    /// the actor's slot is idle and its inbox is not empty. It is the first
    /// of the inbox, and the slot is busy from then until
    /// [`Supervisor::settle`] takes in the handler's completion.
    pub fn deliver(&mut self, actor: usize) -> (envelope: Option<Envelope<M>>)
        ensures
            envelope is Some <==> old(self)@.deliverable(actor as int),
            match envelope {
                Some(envelope) => {
                    &&& envelope == old(self)@.actors[actor as int].inbox[0]
                    &&& final(self)@ == old(self)@.deliver(actor as int)
                },
                None => final(self)@ == old(self)@,
            },
            final(self)@ == old(self)@.apply(Operation::Deliver(actor as int)),
            final(self)@.wf(),
    {
        proof {
            use_type_invariant(&*self);
        }
        match self.phase {
            Phase::Mounting => {
                return None;
            },
            _ => {},
        }
        if actor >= self.actors.len() {
            return None;
        }
        let idle = match &self.actors[actor].slot {
            Slot::Idle => true,
            _ => false,
        };
        if !idle || self.actors[actor].inbox.len() == 0 {
            return None;
        }
        proof {
            old(self)@.lemma_deliver_wf(actor as int);
        }
        let mut actors: Vec<Cell<M, T>> = Vec::new();
        assert(mailboxes(actors@) =~= Seq::empty());
        core::mem::swap(&mut self.actors, &mut actors);
        let envelope = actors[actor].inbox.pop_front();
        let origin = match &envelope {
            Some(Envelope::Request(id, _)) => Some(*id),
            _ => None,
        };
        actors[actor].slot = Slot::Busy(origin);
        assert(mailboxes(actors@) =~= old(self)@.deliver(actor as int).actors);
        self.actors = actors;
        envelope
    }

    /// Hands back the deferred task of `actor` to be resumed.
    ///
    /// A task is handed back exactly when one waits in the actor's slot.
    /// The slot is busy from then until [`Supervisor::settle`] takes in the
    /// completion of the resumed work.
    pub fn resume(&mut self, actor: usize) -> (task: Option<T>)
        ensures
            task is Some <==> old(self)@.resumable(actor as int),
            match task {
                Some(task) => {
                    &&& task == old(self)@.actors[actor as int].slot->Deferred_0
                    &&& final(self)@ == old(self)@.resume(actor as int)
                },
                None => final(self)@ == old(self)@,
            },
            final(self)@ == old(self)@.apply(Operation::Resume(actor as int)),
            final(self)@.wf(),
    {
        proof {
            use_type_invariant(&*self);
        }
        if actor >= self.actors.len() {
            return None;
        }
        let deferred = match &self.actors[actor].slot {
            Slot::Deferred(_, _) => true,
            _ => false,
        };
        if !deferred {
            return None;
        }
        proof {
            old(self)@.lemma_resume_wf(actor as int);
        }
        let mut actors: Vec<Cell<M, T>> = Vec::new();
        assert(mailboxes(actors@) =~= Seq::empty());
        core::mem::swap(&mut self.actors, &mut actors);
        let mut slot = Slot::Idle;
        core::mem::swap(&mut actors[actor].slot, &mut slot);
        let task = match slot {
            Slot::Deferred(task, origin) => {
                actors[actor].slot = Slot::Busy(origin);
                Some(task)
            },
            _ => None,
        };
        assert(mailboxes(actors@) =~= old(self)@.resume(actor as int).actors);
        self.actors = actors;
        task
    }

    /// Takes in the completion that the handler of `actor` returned.
    ///
    /// The completion is taken exactly when the actor's slot is busy. An
    /// immediate completion frees the slot, and its reply is filed under the
    /// request that the envelope in work came with, if it came with one. A
    /// deferred completion occupies the slot with its task. A completion
    /// that nothing waits for is dropped, and nothing changes.
    pub fn settle(&mut self, actor: usize, completion: Completion<R, T>) -> (taken: bool)
        ensures
            taken == old(self)@.busy(actor as int),
            final(self)@ == old(self)@.offer(actor as int, completion),
            final(self)@ == old(self)@.apply(Operation::Settle(actor as int, completion)),
            final(self)@.wf(),
    {
        proof {
            use_type_invariant(&*self);
        }
        if actor >= self.actors.len() {
            return false;
        }
        let origin = match &self.actors[actor].slot {
            Slot::Busy(origin) => *origin,
            _ => {
                return false;
            },
        };
        proof {
            old(self)@.lemma_settle_wf(actor as int, completion);
        }
        let next = match completion {
            Completion::Immediate(reply) => {
                match origin {
                    Some(id) => {
                        let mut replies: Vec<(RequestId, R)> = Vec::new();
                        core::mem::swap(&mut self.replies, &mut replies);
                        replies.push((id, reply));
                        self.replies = replies;
                    },
                    None => {},
                }
                Slot::Idle
            },
            Completion::Deferred(task) => Slot::Deferred(task, origin),
        };
        let mut actors: Vec<Cell<M, T>> = Vec::new();
        assert(mailboxes(actors@) =~= Seq::empty());
        core::mem::swap(&mut self.actors, &mut actors);
        actors[actor].slot = next;
        assert(mailboxes(actors@) =~= old(self)@.settle(actor as int, completion).actors);
        self.actors = actors;
        true
    }

    /// Sets off the lifecycle: ends mounting and broadcasts `Initialize`.
    ///
    /// Only the first call does so and returns `true`.
    pub fn start(&mut self) -> (started: bool)
        ensures
            started == (old(self)@.phase is Mounting),
            final(self)@ == old(self)@.start(),
            final(self)@ == old(self)@.apply(Operation::Start),
            final(self)@.wf(),
    {
        proof {
            use_type_invariant(&*self);
            old(self)@.lemma_lifecycle_wf();
        }
        match self.phase {
            Phase::Mounting => {},
            _ => {
                return false;
            },
        }
        self.phase = Phase::Initializing;
        let mut actors: Vec<Cell<M, T>> = Vec::new();
        assert(mailboxes(actors@) =~= Seq::empty());
        core::mem::swap(&mut self.actors, &mut actors);
        broadcast(&mut actors, Lifecycle::Initialize);
        assert(mailboxes(actors@) =~= old(self)@.start().actors);
        self.actors = actors;
        true
    }

    /// Gives the lifecycle the chance to move on: once initialization has
    /// come to rest everywhere, broadcasts `Start`.
    ///
    /// Returns whether it did so.
    pub fn progress(&mut self) -> (moved: bool)
        ensures
            moved == old(self)@.ready(),
            final(self)@ == old(self)@.progress(),
            final(self)@ == old(self)@.apply(Operation::Progress),
            final(self)@.wf(),
    {
        proof {
            use_type_invariant(&*self);
            old(self)@.lemma_lifecycle_wf();
        }
        match self.phase {
            Phase::Initializing => {},
            _ => {
                return false;
            },
        }
        if !self.is_quiescent() {
            return false;
        }
        self.phase = Phase::Running;
        let mut actors: Vec<Cell<M, T>> = Vec::new();
        assert(mailboxes(actors@) =~= Seq::empty());
        core::mem::swap(&mut self.actors, &mut actors);
        broadcast(&mut actors, Lifecycle::Start);
        assert(mailboxes(actors@) =~= old(self)@.progress().actors);
        self.actors = actors;
        true
    }
}

} // verus!
