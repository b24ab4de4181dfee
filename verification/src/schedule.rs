//! The scheduling state of a device, as a mathematical model.
//!
//! A [`Schedule`] says, for every mounted actor, which envelopes wait in its
//! inbox, whether a completion of its handler is outstanding, and which
//! interrupts it is bound to; which replies wait to be collected; and how
//! far the lifecycle has come. The functions of this module say how each
//! operation of the supervisor changes that state, and its lemmas say what
//! follows: inboxes are first-in-first-out, a deferred completion holds its
//! actor's slot until it is resumed to the end, and `Start` reaches no actor
//! before `Initialize` has run its course everywhere.

use crate::device::Lifecycle;
use crate::handler::Completion;
use vstd::prelude::*;

verus! {

/// How far the lifecycle of the device has come.
#[derive(Copy, Clone, Debug, PartialEq, Eq, Structural)]
pub enum Phase {
    /// Actors are being mounted; nothing is dispatched yet.
    Mounting,
    /// `Initialize` was broadcast and has not run its course everywhere.
    Initializing,
    /// `Start` was broadcast.
    Running,
}

/// The handle of a request, by which its reply is collected.
#[derive(Copy, Clone, Debug, PartialEq, Eq, Structural)]
pub struct RequestId {
    pub number: u64,
}

/// What waits in an inbox.
#[derive(Debug, PartialEq, Eq)]
pub enum Envelope<M> {
    /// A lifecycle event, broadcast by the supervisor.
    Lifecycle(Lifecycle),
    /// A message whose sender expects no answer.
    Notification(M),
    /// A message whose sender collects the reply under the given handle.
    Request(RequestId, M),
}

impl<M> Envelope<M> {
    /// The request that the envelope belongs to, if it holds one.
    pub open spec fn origin(self) -> Option<RequestId> {
        match self {
            Envelope::Request(id, _) => Some(id),
            _ => None,
        }
    }
}

/// The slot of an actor for the completion of its handler.
///
/// Each state but `Idle` remembers the request, if any, that the envelope
/// in work came with.
pub enum Slot<T> {
    /// No envelope is in work; the next one can be delivered.
    Idle,
    /// The handler runs: an envelope was handed out, or a task handed back,
    /// and the completion is awaited.
    Busy(Option<RequestId>),
    /// The handler deferred its work; the task waits to be resumed.
    Deferred(T, Option<RequestId>),
}

/// The state of one mounted actor.
pub struct Mailbox<M, T> {
    pub inbox: Seq<Envelope<M>>,
    pub slot: Slot<T>,
    pub interrupts: Seq<i16>,
}

impl<M, T> Mailbox<M, T> {
    /// The state of an actor that was just mounted.
    pub open spec fn empty() -> Self {
        Mailbox { inbox: Seq::empty(), slot: Slot::Idle, interrupts: Seq::empty() }
    }

    /// The same state with `envelope` at the end of the inbox.
    pub open spec fn with(self, envelope: Envelope<M>) -> Self {
        Mailbox { inbox: self.inbox.push(envelope), ..self }
    }

    /// Nothing waits and nothing is in work.
    pub open spec fn quiet(self) -> bool {
        self.inbox.len() == 0 && self.slot is Idle
    }

    /// `Start` waits nowhere in the inbox.
    pub open spec fn unstarted(self) -> bool {
        forall|k: int| 0 <= k < self.inbox.len() ==> self.inbox[k] != Envelope::<M>::Lifecycle(Lifecycle::Start)
    }

    /// The only lifecycle events that wait in the inbox are `Initialize` and
    /// `Start`.
    pub open spec fn unreserved(self) -> bool {
        forall|k: int|
            0 <= k < self.inbox.len() ==> ((#[trigger] self.inbox[k]) matches Envelope::Lifecycle(event) ==> event
                is Initialize || event is Start)
    }
}

/// What can be done to the scheduling state of a device: the operations of
/// the supervisor.
pub enum Operation<M, R, T> {
    /// Mount one more actor.
    Mount,
    /// Bind the actor to the interrupt.
    Bind(i16, int),
    /// Occupy the actor's slot with deferred setup work.
    Defer(int, T),
    /// Send the actor a notification.
    Notify(int, M),
    /// Send the actor a request.
    Request(int, M),
    /// Collect the reply to the request.
    Collect(RequestId),
    /// Hand out the actor's next envelope.
    Deliver(int),
    /// Hand back the actor's deferred task.
    Resume(int),
    /// Take in the completion of the actor's handler.
    Settle(int, Completion<R, T>),
    /// Set off the lifecycle.
    Start,
    /// Give the lifecycle the chance to move on.
    Progress,
}

/// The scheduling state of a device.
pub struct Schedule<M, R, T> {
    pub phase: Phase,
    pub actors: Seq<Mailbox<M, T>>,
    pub replies: Seq<(RequestId, R)>,
    pub requests: nat,
}

impl<M, R, T> Schedule<M, R, T> {
    /// The state of a device on which nothing is mounted yet.
    pub open spec fn new() -> Self {
        Schedule { phase: Phase::Mounting, actors: Seq::empty(), replies: Seq::empty(), requests: 0 }
    }

    /// Whether `actor` is the number of a mounted actor.
    pub open spec fn mounted(self, actor: int) -> bool {
        0 <= actor < self.actors.len()
    }

    /// `Start` waits in no inbox before the device runs, and the lifecycle
    /// events that are not in use wait in no inbox at any time.
    pub open spec fn wf(self) -> bool {
        &&& !(self.phase is Running) ==> forall|a: int|
            0 <= a < self.actors.len() ==> (#[trigger] self.actors[a]).unstarted()
        &&& forall|a: int| 0 <= a < self.actors.len() ==> (#[trigger] self.actors[a]).unreserved()
    }

    /// The state with one more actor mounted.
    pub open spec fn mount(self) -> Self {
        Schedule { actors: self.actors.push(Mailbox::empty()), ..self }
    }

    /// The state with `actor` bound to the interrupt `irqn`.
    pub open spec fn bind(self, irqn: i16, actor: int) -> Self {
        let mailbox = self.actors[actor];
        Schedule {
            actors: self.actors.update(actor, Mailbox { interrupts: mailbox.interrupts.push(irqn), ..mailbox }),
            ..self
        }
    }

    /// Whether setup work of `actor` can be deferred: actors are still being
    /// mounted and nothing occupies the actor's slot.
    pub open spec fn open_for_setup(self, actor: int) -> bool {
        self.phase is Mounting && self.mounted(actor) && self.actors[actor].slot is Idle
    }

    /// The state with the slot of `actor` occupied by the setup work `task`.
    pub open spec fn defer(self, actor: int, task: T) -> Self {
        Schedule {
            actors: self.actors.update(actor, Mailbox { slot: Slot::Deferred(task, None), ..self.actors[actor] }),
            ..self
        }
    }

    /// Whether `actor` is bound to the interrupt `irqn`.
    pub open spec fn bound(self, irqn: i16, actor: int) -> bool {
        self.mounted(actor) && self.actors[actor].interrupts.contains(irqn)
    }

    /// No actor is bound to the interrupt `irqn`.
    pub open spec fn unbound(self, irqn: i16) -> bool {
        forall|actor: int| !self.bound(irqn, actor)
    }

    /// The state with `envelope` at the end of the inbox of `actor`.
    pub open spec fn post(self, actor: int, envelope: Envelope<M>) -> Self {
        Schedule { actors: self.actors.update(actor, self.actors[actor].with(envelope)), ..self }
    }

    /// The state after `messages` were sent to `actor` one by one, as
    /// notifications.
    pub open spec fn notify_all(self, actor: int, messages: Seq<M>) -> Self
        decreases messages.len(),
    {
        if messages.len() == 0 {
            self
        } else {
            self.post(actor, Envelope::Notification(messages[0])).notify_all(actor, messages.skip(1))
        }
    }

    /// The state with the request `message` sent to `actor`.
    pub open spec fn request(self, actor: int, message: M) -> Self {
        Schedule {
            requests: self.requests + 1,
            ..self.post(actor, Envelope::Request(RequestId { number: self.requests as u64 }, message))
        }
    }

    /// The state with `event` at the end of every inbox.
    pub open spec fn broadcast(self, event: Lifecycle) -> Self {
        Schedule {
            actors: Seq::new(self.actors.len(), |a: int| self.actors[a].with(Envelope::Lifecycle(event))),
            ..self
        }
    }

    /// Nothing waits in any inbox and no completion is outstanding.
    pub open spec fn quiescent(self) -> bool {
        forall|a: int| 0 <= a < self.actors.len() ==> (#[trigger] self.actors[a]).quiet()
    }

    /// Whether the next envelope of `actor` can be handed to its handler:
    /// the device is past mounting, the actor's slot is idle, and an
    /// envelope waits.
    pub open spec fn deliverable(self, actor: int) -> bool {
        &&& !(self.phase is Mounting)
        &&& self.mounted(actor)
        &&& self.actors[actor].slot is Idle
        &&& self.actors[actor].inbox.len() > 0
    }

    /// The state after the first envelope of `actor` was handed out.
    pub open spec fn deliver(self, actor: int) -> Self {
        let mailbox = self.actors[actor];
        Schedule {
            actors: self.actors.update(
                actor,
                Mailbox { inbox: mailbox.inbox.skip(1), slot: Slot::Busy(mailbox.inbox[0].origin()), ..mailbox },
            ),
            ..self
        }
    }

    /// No actor has an envelope to be handed or a task to be resumed, so
    /// that a tick calls no handler.
    pub open spec fn idle(self) -> bool {
        forall|a: int| !self.deliverable(a) && !self.resumable(a)
    }

    /// Whether a deferred task of `actor` waits to be resumed.
    pub open spec fn resumable(self, actor: int) -> bool {
        self.mounted(actor) && self.actors[actor].slot is Deferred
    }

    /// The state after the deferred task of `actor` was handed back to its
    /// handler.
    pub open spec fn resume(self, actor: int) -> Self {
        let mailbox = self.actors[actor];
        Schedule {
            actors: self.actors.update(actor, Mailbox { slot: Slot::Busy(mailbox.slot->Deferred_1), ..mailbox }),
            ..self
        }
    }

    /// Whether the handler of `actor` runs, so that its completion is awaited.
    pub open spec fn busy(self, actor: int) -> bool {
        self.mounted(actor) && self.actors[actor].slot is Busy
    }

    /// The state after the handler of `actor` returned `completion`.
    ///
    /// An immediate completion frees the slot, and its reply is filed if the
    /// envelope in work was a request. A deferred one occupies the slot with
    /// its task.
    pub open spec fn settle(self, actor: int, completion: Completion<R, T>) -> Self {
        let mailbox = self.actors[actor];
        let origin = mailbox.slot->Busy_0;
        match completion {
            Completion::Immediate(reply) => Schedule {
                actors: self.actors.update(actor, Mailbox { slot: Slot::Idle, ..mailbox }),
                replies: match origin {
                    Some(id) => self.replies.push((id, reply)),
                    None => self.replies,
                },
                ..self
            },
            Completion::Deferred(task) => Schedule {
                actors: self.actors.update(actor, Mailbox { slot: Slot::Deferred(task, origin), ..mailbox }),
                ..self
            },
        }
    }

    /// The state after a completion was offered for `actor`: taken in where
    /// the handler of the actor runs, dropped where nothing waits for it.
    pub open spec fn offer(self, actor: int, completion: Completion<R, T>) -> Self {
        if self.busy(actor) {
            self.settle(actor, completion)
        } else {
            self
        }
    }

    /// Whether `position` is where the first reply to the request `id` waits.
    pub open spec fn reply_at(self, id: RequestId, position: int) -> bool {
        &&& 0 <= position < self.replies.len()
        &&& self.replies[position].0 == id
        &&& forall|k: int| 0 <= k < position ==> self.replies[k].0 != id
    }

    /// Whether a reply to the request `id` waits to be collected.
    pub open spec fn replied(self, id: RequestId) -> bool {
        exists|k: int| 0 <= k < self.replies.len() && self.replies[k].0 == id
    }

    /// The state after the reply at `position` was collected.
    pub open spec fn collect(self, position: int) -> Self {
        Schedule { replies: self.replies.remove(position), ..self }
    }

    /// The state after the lifecycle was set off: once mounting is over,
    /// `Initialize` is broadcast. Later calls change nothing.
    pub open spec fn start(self) -> Self {
        if self.phase is Mounting {
            Schedule { phase: Phase::Initializing, ..self.broadcast(Lifecycle::Initialize) }
        } else {
            self
        }
    }

    /// Whether the lifecycle can move on from `Initialize` to `Start`:
    /// initialization is under way and has come to rest everywhere.
    pub open spec fn ready(self) -> bool {
        self.phase is Initializing && self.quiescent()
    }

    /// The state after the lifecycle was given the chance to move on: if it
    /// is ready, `Start` is broadcast.
    pub open spec fn progress(self) -> Self {
        if self.ready() {
            Schedule { phase: Phase::Running, ..self.broadcast(Lifecycle::Start) }
        } else {
            self
        }
    }

    /// The envelopes that the handler of `actor` is handed, one after the
    /// other, when it answers each at once, with the replies in `answers`.
    pub open spec fn handed(self, actor: int, answers: Seq<R>) -> Seq<Envelope<M>>
        decreases answers.len(),
    {
        if answers.len() == 0 || !self.deliverable(actor) {
            Seq::empty()
        } else {
            seq![self.actors[actor].inbox[0]] + self.deliver(actor).settle(
                actor,
                Completion::Immediate(answers[0]),
            ).handed(actor, answers.skip(1))
        }
    }

    /// The state after `operation`. An operation that the supervisor refuses
    /// in this state changes nothing.
    pub open spec fn apply(self, operation: Operation<M, R, T>) -> Self {
        match operation {
            Operation::Mount => if self.phase is Mounting {
                self.mount()
            } else {
                self
            },
            Operation::Bind(irqn, actor) => if self.phase is Mounting && self.mounted(actor) {
                self.bind(irqn, actor)
            } else {
                self
            },
            Operation::Defer(actor, task) => if self.open_for_setup(actor) {
                self.defer(actor, task)
            } else {
                self
            },
            Operation::Notify(actor, message) => if self.mounted(actor) {
                self.post(actor, Envelope::Notification(message))
            } else {
                self
            },
            Operation::Request(actor, message) => if self.mounted(actor) && self.requests < u64::MAX {
                self.request(actor, message)
            } else {
                self
            },
            Operation::Collect(id) => if self.replied(id) {
                self.collect(choose|position: int| self.reply_at(id, position))
            } else {
                self
            },
            Operation::Deliver(actor) => if self.deliverable(actor) {
                self.deliver(actor)
            } else {
                self
            },
            Operation::Resume(actor) => if self.resumable(actor) {
                self.resume(actor)
            } else {
                self
            },
            Operation::Settle(actor, completion) => self.offer(actor, completion),
            Operation::Start => self.start(),
            Operation::Progress => self.progress(),
        }
    }

    /// The state after `operations`, one after the other.
    pub open spec fn run(self, operations: Seq<Operation<M, R, T>>) -> Self
        decreases operations.len(),
    {
        if operations.len() == 0 {
            self
        } else {
            self.run(operations.drop_last()).apply(operations.last())
        }
    }

    /// Mounting an actor keeps the state well formed.
    pub proof fn lemma_mount_wf(self)
        requires
            self.wf(),
        ensures
            self.mount().wf(),
    {
    }

    /// Binding an interrupt keeps the state well formed.
    pub proof fn lemma_bind_wf(self, irqn: i16, actor: int)
        requires
            self.wf(),
            self.mounted(actor),
        ensures
            self.bind(irqn, actor).wf(),
    {
    }

    /// Deferring setup work keeps the state well formed.
    pub proof fn lemma_defer_wf(self, actor: int, task: T)
        requires
            self.wf(),
            self.mounted(actor),
        ensures
            self.defer(actor, task).wf(),
    {
    }

    /// Sending a message, as a notification or as a request, keeps the state
    /// well formed.
    pub proof fn lemma_post_wf(self, actor: int, envelope: Envelope<M>)
        requires
            self.wf(),
            self.mounted(actor),
            !(envelope is Lifecycle),
        ensures
            self.post(actor, envelope).wf(),
    {
    }

    /// Handing out an envelope keeps the state well formed.
    pub proof fn lemma_deliver_wf(self, actor: int)
        requires
            self.wf(),
            self.deliverable(actor),
        ensures
            self.deliver(actor).wf(),
    {
    }

    /// Handing back a task keeps the state well formed.
    pub proof fn lemma_resume_wf(self, actor: int)
        requires
            self.wf(),
            self.resumable(actor),
        ensures
            self.resume(actor).wf(),
    {
    }

    /// Taking in a completion keeps the state well formed.
    pub proof fn lemma_settle_wf(self, actor: int, completion: Completion<R, T>)
        requires
            self.wf(),
            self.busy(actor),
        ensures
            self.settle(actor, completion).wf(),
    {
    }

    /// Setting off the lifecycle and moving it on keep the state well
    /// formed.
    pub proof fn lemma_lifecycle_wf(self)
        requires
            self.wf(),
        ensures
            self.start().wf(),
            self.progress().wf(),
    {
    }

    /// Whatever is done to a well-formed state leaves it well formed.
    pub proof fn lemma_apply_wf(self, operation: Operation<M, R, T>)
        requires
            self.wf(),
        ensures
            self.apply(operation).wf(),
    {
        match operation {
            Operation::Mount => self.lemma_mount_wf(),
            Operation::Bind(irqn, actor) => if self.mounted(actor) {
                self.lemma_bind_wf(irqn, actor)
            },
            Operation::Defer(actor, task) => if self.mounted(actor) {
                self.lemma_defer_wf(actor, task)
            },
            Operation::Notify(actor, message) => if self.mounted(actor) {
                self.lemma_post_wf(actor, Envelope::Notification(message))
            },
            Operation::Request(actor, message) => if self.mounted(actor) {
                self.lemma_post_wf(actor, Envelope::Request(RequestId { number: self.requests as u64 }, message))
            },
            Operation::Collect(id) => {},
            Operation::Deliver(actor) => if self.deliverable(actor) {
                self.lemma_deliver_wf(actor)
            },
            Operation::Resume(actor) => if self.resumable(actor) {
                self.lemma_resume_wf(actor)
            },
            Operation::Settle(actor, completion) => if self.busy(actor) {
                self.lemma_settle_wf(actor, completion)
            },
            Operation::Start => self.lemma_lifecycle_wf(),
            Operation::Progress => self.lemma_lifecycle_wf(),
        }
    }

    /// Every state that a device can reach is well formed.
    pub proof fn lemma_run_wf(self, operations: Seq<Operation<M, R, T>>)
        requires
            self.wf(),
        ensures
            self.run(operations).wf(),
        decreases operations.len(),
    {
        if operations.len() > 0 {
            self.lemma_run_wf(operations.drop_last());
            self.run(operations.drop_last()).lemma_apply_wf(operations.last());
        }
    }

    /// A device that runs has come to rest after `Initialize` before.
    ///
    /// If a device is running after `operations`, then one of them gave the
    /// lifecycle the chance to move on in a state in which initialization
    /// was under way, every inbox was empty and no completion was
    /// outstanding.
    pub proof fn lemma_running_after_rest(operations: Seq<Operation<M, R, T>>) -> (at: int)
        requires
            Self::new().run(operations).phase is Running,
        ensures
            0 <= at < operations.len(),
            operations[at] is Progress,
            Self::new().run(operations.take(at)).ready(),
        decreases operations.len(),
    {
        let before = Self::new().run(operations.drop_last());
        if before.phase is Running {
            let at = Self::lemma_running_after_rest(operations.drop_last());
            assert(operations.drop_last().take(at) =~= operations.take(at));
            at
        } else {
            assert(operations.take(operations.len() - 1) =~= operations.drop_last());
            operations.len() - 1
        }
    }

    /// `Start` reaches no actor before `Initialize` has run its course
    /// everywhere.
    ///
    /// Whatever was done to a device since it was made: if `Start` is the
    /// envelope that an actor is handed next, then at some earlier point
    /// the device was at rest while initializing, with every inbox empty
    /// and no completion outstanding, and the lifecycle moved on from
    /// there.
    pub proof fn lemma_start_after_initialize(operations: Seq<Operation<M, R, T>>, actor: int) -> (at: int)
        requires
            Self::new().run(operations).deliverable(actor),
            Self::new().run(operations).actors[actor].inbox[0] == Envelope::<M>::Lifecycle(Lifecycle::Start),
        ensures
            0 <= at < operations.len(),
            operations[at] is Progress,
            Self::new().run(operations.take(at)).phase is Initializing,
            Self::new().run(operations.take(at)).quiescent(),
    {
        Self::new().lemma_run_wf(operations);
        Self::lemma_running_after_rest(operations)
    }

    /// Only `Initialize` and `Start` are emitted: whatever was done to a
    /// device since it was made, the lifecycle event that an actor is handed
    /// is one of these two.
    pub proof fn lemma_emitted_phases(operations: Seq<Operation<M, R, T>>, actor: int, event: Lifecycle)
        requires
            Self::new().run(operations).deliverable(actor),
            Self::new().run(operations).actors[actor].inbox[0] == Envelope::<M>::Lifecycle(event),
        ensures
            event is Initialize || event is Start,
    {
        Self::new().lemma_run_wf(operations);
        assert(Self::new().run(operations).actors[actor].unreserved());
    }

    /// Notifications join the inbox of their actor at the end, in the order
    /// in which they were sent, and touch nothing else.
    pub proof fn lemma_notify_all(self, actor: int, messages: Seq<M>)
        requires
            self.mounted(actor),
        ensures
            self.notify_all(actor, messages).actors[actor].inbox == self.actors[actor].inbox + messages.map_values(
                |m: M| Envelope::Notification(m),
            ),
            self.notify_all(actor, messages).actors[actor].slot == self.actors[actor].slot,
            self.notify_all(actor, messages).actors.len() == self.actors.len(),
            forall|other: int|
                0 <= other < self.actors.len() && other != actor ==> self.notify_all(actor, messages).actors[other]
                    == #[trigger] self.actors[other],
            self.notify_all(actor, messages).phase == self.phase,
        decreases messages.len(),
    {
        let wrap = |m: M| Envelope::Notification(m);
        if messages.len() == 0 {
            assert(self.actors[actor].inbox + messages.map_values(wrap) =~= self.actors[actor].inbox);
        } else {
            let next = self.post(actor, Envelope::Notification(messages[0]));
            next.lemma_notify_all(actor, messages.skip(1));
            assert(next.actors[actor].inbox + messages.skip(1).map_values(wrap) =~= self.actors[actor].inbox
                + messages.map_values(wrap));
            assert forall|other: int| 0 <= other < self.actors.len() && other != actor implies self.notify_all(
                actor,
                messages,
            ).actors[other] == #[trigger] self.actors[other] by {
                assert(next.actors[other] == self.actors[other]);
            }
        }
    }

    /// An inbox is first-in-first-out: a handler that answers at once is
    /// handed the envelopes of its inbox from the front, in the order in
    /// which they wait.
    pub proof fn lemma_handed_in_order(self, actor: int, answers: Seq<R>)
        requires
            !(self.phase is Mounting),
            self.mounted(actor),
            self.actors[actor].slot is Idle,
            answers.len() <= self.actors[actor].inbox.len(),
        ensures
            self.handed(actor, answers) == self.actors[actor].inbox.take(answers.len() as int),
        decreases answers.len(),
    {
        let inbox = self.actors[actor].inbox;
        if answers.len() == 0 {
            assert(inbox.take(0) =~= Seq::empty());
        } else {
            let next = self.deliver(actor).settle(actor, Completion::Immediate(answers[0]));
            next.lemma_handed_in_order(actor, answers.skip(1));
            assert(seq![inbox[0]] + inbox.skip(1).take(answers.len() - 1) =~= inbox.take(answers.len() as int));
        }
    }

    /// Messages sent to an actor with `notify` reach its handler in the
    /// exact order in which they were sent, after what waited before them.
    pub proof fn lemma_fifo(self, actor: int, messages: Seq<M>, answers: Seq<R>)
        requires
            !(self.phase is Mounting),
            self.mounted(actor),
            self.actors[actor].slot is Idle,
            answers.len() == self.actors[actor].inbox.len() + messages.len(),
        ensures
            self.notify_all(actor, messages).handed(actor, answers) == self.actors[actor].inbox
                + messages.map_values(|m: M| Envelope::Notification(m)),
    {
        let wrap = |m: M| Envelope::Notification(m);
        let after = self.notify_all(actor, messages);
        self.lemma_notify_all(actor, messages);
        after.lemma_handed_in_order(actor, answers);
        let all = self.actors[actor].inbox + messages.map_values(wrap);
        assert(all.take(answers.len() as int) =~= all);
    }

    /// An immediate completion frees the slot at once: the actor's next
    /// envelope, if one waits, can be delivered. A deferred completion holds
    /// the slot: nothing is delivered to the actor, and the slot is freed
    /// only when the task was handed back to be resumed and resuming it
    /// ended in an immediate completion.
    pub proof fn lemma_completion(self, actor: int, reply: R, task: T)
        requires
            !(self.phase is Mounting),
            self.busy(actor),
        ensures
            self.settle(actor, Completion::Immediate(reply)).actors[actor].slot is Idle,
            self.actors[actor].inbox.len() > 0 ==> self.settle(actor, Completion::Immediate(reply)).deliverable(
                actor,
            ),
            self.settle(actor, Completion::Deferred(task)).actors[actor].slot is Deferred,
            !self.settle(actor, Completion::Deferred(task)).deliverable(actor),
            self.settle(actor, Completion::Deferred(task)).resumable(actor),
            self.settle(actor, Completion::Deferred(task)).resume(actor).busy(actor),
            self.settle(actor, Completion::Deferred(task)).resume(actor).settle(
                actor,
                Completion::Deferred(task),
            ).actors[actor].slot is Deferred,
    {
    }

    /// `Start` follows `Initialize`, for the device as a whole.
    ///
    /// Setting off the lifecycle puts `Initialize` at the end of every inbox.
    /// The lifecycle moves on only from a state in which every inbox is
    /// empty and no completion is outstanding, so every actor was handed
    /// `Initialize` and what it set off has resolved. And while the device
    /// is not running, whatever is delivered to any actor is not `Start`.
    pub proof fn lemma_lifecycle_order(self, actor: int)
        requires
            self.wf(),
            self.mounted(actor),
        ensures
            self.phase is Mounting ==> self.start().phase is Initializing && self.start().actors[actor].inbox.last()
                == Envelope::<M>::Lifecycle(Lifecycle::Initialize),
            !(self.phase is Running) && self.progress().phase is Running ==> self.phase is Initializing
                && self.quiescent(),
            self.deliverable(actor) && self.actors[actor].inbox[0] == Envelope::<M>::Lifecycle(Lifecycle::Start)
                ==> self.phase is Running,
            self.progress().phase is Running && !(self.phase is Running) ==> self.progress().actors[actor].inbox
                == seq![Envelope::<M>::Lifecycle(Lifecycle::Start)],
    {
        if self.ready() {
            assert(self.actors[actor].quiet());
            assert(self.progress().actors[actor].inbox =~= seq![Envelope::<M>::Lifecycle(Lifecycle::Start)]);
        }
    }
}

} // verus!
