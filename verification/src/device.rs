//! The root device, its context, and the system-wide lifecycle.

use crate::bus::{EventBus, EventConsumer};
use crate::handler::Completion;
use crate::schedule::{Envelope, Phase, Schedule};
use crate::supervisor::Supervisor;
use vstd::prelude::*;

verus! {

/// System-wide lifecycle events, broadcast to every actor.
///
/// Every actor is handed each event that is emitted and may ignore any of
/// them. `Initialize` comes first, and `Start` only once the work that
/// `Initialize` set off has finished everywhere.
#[derive(Copy, Clone, Debug, PartialEq, Eq, Structural)]
pub enum Lifecycle {
    /// Emitted once all actors are mounted.
    Initialize,
    /// Emitted once every actor has finished initializing.
    Start,
    /// Not currently emitted.
    Stop,
    /// Not currently emitted.
    Sleep,
    /// Not currently emitted.
    Hibernate,
}

/// The root of a device: it owns the actors and routes to their handlers.
///
/// Actors are known to the supervisor by number, in the order in which the
/// device mounted them. The device is what turns a number back into the
/// actor: it hands each envelope, task and interrupt to the handler of the
/// actor that the number stands for. Messages, replies and tasks of all its
/// actors are gathered in one type each.
pub trait Device: Sized {
    /// What can be sent to the actors of the device.
    type Message;

    /// What the handlers of the device answer requests with.
    type Reply;

    /// The captured state of work that a handler of the device deferred.
    type Task;

    /// Relates the device and its schedule before and after the device
    /// mounted its actors.
    ///
    /// A device that says nothing of its mounting keeps this body; one that
    /// is verified can state here what it mounts.
    open spec fn mounts(
        pre: Self,
        before: Schedule<Self::Message, Self::Reply, Self::Task>,
        post: Self,
        after: Schedule<Self::Message, Self::Reply, Self::Task>,
    ) -> bool {
        true
    }

    /// Called once, when the device is mounted into the system.
    ///
    /// The device mounts each of its actors with the supervisor, hands them
    /// their addresses and the bus, binds them to each other, and binds
    /// interrupts to those that handle them.
    fn mount(
        &mut self,
        bus: &EventBus<Self>,
        supervisor: &mut Supervisor<Self::Message, Self::Reply, Self::Task>,
    )
        requires
            old(supervisor)@.phase is Mounting,
        ensures
            Self::mounts(*old(self), old(supervisor)@, *final(self), final(supervisor)@),
    ;

    /// Relates the device and its schedule before and after the handler of
    /// `actor` was handed `envelope`, and gives the completion it returned.
    ///
    /// A device that says nothing of its handlers keeps this body.
    open spec fn dispatches(
        pre: Self,
        before: Schedule<Self::Message, Self::Reply, Self::Task>,
        actor: usize,
        envelope: Envelope<Self::Message>,
        post: Self,
        after: Schedule<Self::Message, Self::Reply, Self::Task>,
        completion: Completion<Self::Reply, Self::Task>,
    ) -> bool {
        true
    }

    /// Hands `envelope` to the handler of `actor` and returns its completion.
    ///
    /// While the handler runs, the slot of the actor is busy.
    fn dispatch(
        &mut self,
        actor: usize,
        envelope: Envelope<Self::Message>,
        supervisor: &mut Supervisor<Self::Message, Self::Reply, Self::Task>,
    ) -> (completion: Completion<Self::Reply, Self::Task>)
        requires
            old(supervisor)@.busy(actor as int),
        ensures
            Self::dispatches(
                *old(self),
                old(supervisor)@,
                actor,
                envelope,
                *final(self),
                final(supervisor)@,
                completion,
            ),
    ;

    /// Relates the device and its schedule before and after the deferred
    /// work `task` of `actor` was resumed by one step, and gives the
    /// completion that the step returned.
    ///
    /// A device that says nothing of its handlers keeps this body.
    open spec fn resumes(
        pre: Self,
        before: Schedule<Self::Message, Self::Reply, Self::Task>,
        actor: usize,
        task: Self::Task,
        post: Self,
        after: Schedule<Self::Message, Self::Reply, Self::Task>,
        completion: Completion<Self::Reply, Self::Task>,
    ) -> bool {
        true
    }

    /// Resumes the deferred work `task` of `actor` by one step and returns
    /// how it stands: resolved, or deferred again.
    ///
    /// While the handler runs, the slot of the actor is busy.
    fn resume(
        &mut self,
        actor: usize,
        task: Self::Task,
        supervisor: &mut Supervisor<Self::Message, Self::Reply, Self::Task>,
    ) -> (completion: Completion<Self::Reply, Self::Task>)
        requires
            old(supervisor)@.busy(actor as int),
        ensures
            Self::resumes(*old(self), old(supervisor)@, actor, task, *final(self), final(supervisor)@, completion),
    ;

    /// Relates the device and its schedule before and after `actor` was told
    /// that the interrupt `irqn` fired.
    ///
    /// A device that says nothing of its handlers keeps this body.
    open spec fn interrupts(
        pre: Self,
        before: Schedule<Self::Message, Self::Reply, Self::Task>,
        actor: usize,
        irqn: i16,
        post: Self,
        after: Schedule<Self::Message, Self::Reply, Self::Task>,
    ) -> bool {
        true
    }

    /// Tells `actor` that the interrupt `irqn`, which it is bound to, has
    /// fired.
    ///
    /// The handler runs to its end at once. It may send messages; it cannot
    /// defer work, as it returns no completion.
    fn interrupt(
        &mut self,
        actor: usize,
        irqn: i16,
        supervisor: &mut Supervisor<Self::Message, Self::Reply, Self::Task>,
    )
        requires
            old(supervisor)@.bound(irqn, actor as int),
        ensures
            Self::interrupts(*old(self), old(supervisor)@, actor, irqn, *final(self), final(supervisor)@),
    ;
}

/// A device together with its supervisor.
pub struct DeviceContext<D: Device> {
    device: D,
    supervisor: Supervisor<D::Message, D::Reply, D::Task>,
}

impl<D: Device> DeviceContext<D> {
    /// The device.
    pub closed spec fn device(&self) -> D {
        self.device
    }

    /// The scheduling state of the device.
    pub closed spec fn schedule(&self) -> Schedule<D::Message, D::Reply, D::Task> {
        self.supervisor@
    }

    /// Relates a device and its schedule before and after the deferred task
    /// of `actor` was resumed by one step, where one waited; where none did,
    /// nothing changed.
    pub open spec fn advanced(
        pre: D,
        before: Schedule<D::Message, D::Reply, D::Task>,
        actor: usize,
        post: D,
        after: Schedule<D::Message, D::Reply, D::Task>,
    ) -> bool {
        if before.resumable(actor as int) {
            exists|left: Schedule<D::Message, D::Reply, D::Task>, completion: Completion<D::Reply, D::Task>|
                {
                    &&& #[trigger] D::resumes(
                        pre,
                        before.resume(actor as int),
                        actor,
                        before.actors[actor as int].slot->Deferred_0,
                        post,
                        left,
                        completion,
                    )
                    &&& after == left.offer(actor as int, completion)
                }
        } else {
            post == pre && after == before
        }
    }

    /// Relates a device and its schedule before and after `actor` was handed
    /// its next envelope, where one could be delivered; where none could,
    /// nothing changed.
    pub open spec fn served(
        pre: D,
        before: Schedule<D::Message, D::Reply, D::Task>,
        actor: usize,
        post: D,
        after: Schedule<D::Message, D::Reply, D::Task>,
    ) -> bool {
        if before.deliverable(actor as int) {
            exists|left: Schedule<D::Message, D::Reply, D::Task>, completion: Completion<D::Reply, D::Task>|
                {
                    &&& #[trigger] D::dispatches(
                        pre,
                        before.deliver(actor as int),
                        actor,
                        before.actors[actor as int].inbox[0],
                        post,
                        left,
                        completion,
                    )
                    &&& after == left.offer(actor as int, completion)
                }
        } else {
            post == pre && after == before
        }
    }

    /// Relates a device and its schedule before and after `actor` was told
    /// that the interrupt `irqn` fired, where it is bound to it; where it is
    /// not, nothing changed.
    pub open spec fn raised(
        pre: D,
        before: Schedule<D::Message, D::Reply, D::Task>,
        irqn: i16,
        actor: usize,
        post: D,
        after: Schedule<D::Message, D::Reply, D::Task>,
    ) -> bool {
        if before.bound(irqn, actor as int) {
            D::interrupts(pre, before, actor, irqn, post, after)
        } else {
            post == pre && after == before
        }
    }

    /// Whether `devices` and `schedules` record a pass in which the first
    /// `count` actors had their turn, one after the other, to resume
    /// deferred work: entry `k` is the state before the turn of actor `k`,
    /// the last entry the state after the pass.
    pub open spec fn advanced_all(
        count: nat,
        devices: Seq<D>,
        schedules: Seq<Schedule<D::Message, D::Reply, D::Task>>,
    ) -> bool {
        &&& devices.len() == count + 1
        &&& schedules.len() == count + 1
        &&& forall|k: int|
            0 <= k < count ==> Self::advanced(
                #[trigger] devices[k],
                schedules[k],
                k as usize,
                devices[k + 1],
                schedules[k + 1],
            )
    }

    /// Whether `devices` and `schedules` record a pass in which the first
    /// `count` actors had their turn, one after the other, to be handed an
    /// envelope: entry `k` is the state before the turn of actor `k`, the
    /// last entry the state after the pass.
    pub open spec fn served_all(
        count: nat,
        devices: Seq<D>,
        schedules: Seq<Schedule<D::Message, D::Reply, D::Task>>,
    ) -> bool {
        &&& devices.len() == count + 1
        &&& schedules.len() == count + 1
        &&& forall|k: int|
            0 <= k < count ==> Self::served(
                #[trigger] devices[k],
                schedules[k],
                k as usize,
                devices[k + 1],
                schedules[k + 1],
            )
    }

    /// Whether `devices` and `schedules` record how `actors` were told of
    /// the interrupt `irqn`, one after the other: entry `k` is the state
    /// before the turn of the actor at place `k`, the last entry the state
    /// after all had their turn.
    pub open spec fn raised_all(
        irqn: i16,
        actors: Seq<usize>,
        devices: Seq<D>,
        schedules: Seq<Schedule<D::Message, D::Reply, D::Task>>,
    ) -> bool {
        &&& devices.len() == actors.len() + 1
        &&& schedules.len() == actors.len() + 1
        &&& forall|k: int|
            0 <= k < actors.len() ==> Self::raised(
                #[trigger] devices[k],
                schedules[k],
                irqn,
                actors[k],
                devices[k + 1],
                schedules[k + 1],
            )
    }

    /// Whether a tick leads from the first entries of `devices` and
    /// `schedules` to the device `post` with the schedule `after`.
    ///
    /// For a device with `count` actors the two sequences have `2 * count +
    /// 1` entries. The first `count + 1` record the pass that resumes
    /// deferred work, the last `count + 1` the pass that delivers envelopes;
    /// after that the lifecycle is given the chance to move on.
    pub open spec fn ticked(
        count: nat,
        devices: Seq<D>,
        schedules: Seq<Schedule<D::Message, D::Reply, D::Task>>,
        post: D,
        after: Schedule<D::Message, D::Reply, D::Task>,
    ) -> bool {
        &&& devices.len() == 2 * count + 1
        &&& schedules.len() == 2 * count + 1
        &&& Self::advanced_all(count, devices.take(count as int + 1), schedules.take(count as int + 1))
        &&& Self::served_all(count, devices.skip(count as int), schedules.skip(count as int))
        &&& post == devices.last()
        &&& after == schedules.last().progress()
    }

    /// Wraps `device` with a supervisor on which nothing is mounted yet.
    pub fn new(device: D) -> (context: Self)
        ensures
            context.device() == device,
            context.schedule() == Schedule::<D::Message, D::Reply, D::Task>::new(),
            context.schedule().wf(),
    {
        DeviceContext { device, supervisor: Supervisor::new() }
    }

    /// Read access to the device.
    pub fn get_ref(&self) -> (device: &D)
        ensures
            *device == self.device(),
    {
        &self.device
    }

    /// Read access to the supervisor.
    pub fn supervisor(&self) -> (supervisor: &Supervisor<D::Message, D::Reply, D::Task>)
        ensures
            supervisor@ == self.schedule(),
    {
        &self.supervisor
    }

    /// Mounts the device: lets it mount its actors, then sets off the
    /// lifecycle by broadcasting `Initialize`.
    ///
    /// Mounting happens once. A later call changes nothing and returns
    /// `false`. After the call the device is past mounting in any case, and
    /// [`DeviceContext::tick`] is to be called over and over.
    pub fn mount(&mut self) -> (mounted: bool)
        ensures
            mounted == (old(self).schedule().phase is Mounting),
            mounted ==> exists|after: Schedule<D::Message, D::Reply, D::Task>|
                {
                    &&& D::mounts(old(self).device(), old(self).schedule(), final(self).device(), after)
                    &&& final(self).schedule() == after.start()
                },
            !mounted ==> final(self).device() == old(self).device(),
            !mounted ==> final(self).schedule() == old(self).schedule(),
            !(final(self).schedule().phase is Mounting),
            final(self).schedule().wf(),
    {
        match self.supervisor.phase() {
            Phase::Mounting => {},
            _ => {
                return false;
            },
        }
        let bus = EventBus::new();
        self.device.mount(&bus, &mut self.supervisor);
        self.supervisor.start();
        true
    }

    /// Hands the next envelope of `actor` to its handler and takes in the
    /// completion.
    ///
    /// This happens exactly when the device is past mounting, the actor's
    /// slot is idle and its inbox is not empty; otherwise nothing changes.
    /// The handler is handed the first envelope of the inbox, in the state
    /// in which that envelope has left the inbox and the slot is busy. What
    /// it returns is offered to the supervisor as it left it.
    pub fn serve(&mut self, actor: usize) -> (served: bool)
        ensures
            served == old(self).schedule().deliverable(actor as int),
            Self::served(
                old(self).device(),
                old(self).schedule(),
                actor,
                final(self).device(),
                final(self).schedule(),
            ),
            final(self).schedule().wf(),
    {
        match self.supervisor.deliver(actor) {
            Some(envelope) => {
                let completion = self.device.dispatch(actor, envelope, &mut self.supervisor);
                let ghost left = self.supervisor@;
                self.supervisor.settle(actor, completion);
                assert(D::dispatches(
                    old(self).device,
                    old(self).supervisor@.deliver(actor as int),
                    actor,
                    old(self).supervisor@.actors[actor as int].inbox[0],
                    self.device,
                    left,
                    completion,
                ) && self.supervisor@ == left.offer(actor as int, completion));
                true
            },
            None => false,
        }
    }

    /// Resumes the deferred task of `actor` by one step and takes in the
    /// completion.
    ///
    /// This happens exactly when a task waits in the actor's slot; otherwise
    /// nothing changes. The handler is handed the task, in the state in
    /// which the slot is busy. What it returns is offered to the supervisor
    /// as it left it: an immediate completion resolves the work, a deferred
    /// one waits for the next tick.
    pub fn advance(&mut self, actor: usize) -> (advanced: bool)
        ensures
            advanced == old(self).schedule().resumable(actor as int),
            Self::advanced(
                old(self).device(),
                old(self).schedule(),
                actor,
                final(self).device(),
                final(self).schedule(),
            ),
            final(self).schedule().wf(),
    {
        match self.supervisor.resume(actor) {
            Some(task) => {
                let completion = self.device.resume(actor, task, &mut self.supervisor);
                let ghost left = self.supervisor@;
                self.supervisor.settle(actor, completion);
                assert(D::resumes(
                    old(self).device,
                    old(self).supervisor@.resume(actor as int),
                    actor,
                    old(self).supervisor@.actors[actor as int].slot->Deferred_0,
                    self.device,
                    left,
                    completion,
                ) && self.supervisor@ == left.offer(actor as int, completion));
                true
            },
            None => false,
        }
    }

    /// One scheduling tick.
    ///
    /// First, every actor with a deferred task has it resumed by one step.
    /// Then every actor whose slot is idle and whose inbox is not empty is
    /// handed its next envelope. At last the lifecycle is given the chance
    /// to move on. So work that a handler defers during a tick is resumed
    /// for the first time in the next tick, and an actor whose handler
    /// answers at once is free for its next envelope in the next tick.
    ///
    /// What the handlers do is theirs to say. Where no actor has an envelope
    /// to be handed or a task to be resumed, no handler is called, and
    /// nothing changes but the lifecycle, which moves on if it is ready.
    pub fn tick(&mut self)
        ensures
            exists|devices: Seq<D>, schedules: Seq<Schedule<D::Message, D::Reply, D::Task>>|
                {
                    &&& #[trigger] Self::ticked(
                        old(self).schedule().actors.len(),
                        devices,
                        schedules,
                        final(self).device(),
                        final(self).schedule(),
                    )
                    &&& devices[0] == old(self).device()
                    &&& schedules[0] == old(self).schedule()
                },
            old(self).schedule().idle() ==> final(self).device() == old(self).device(),
            old(self).schedule().idle() ==> final(self).schedule() == old(self).schedule().progress(),
            final(self).schedule().wf(),
    {
        let count: usize = self.supervisor.actor_count();
        let ghost mut devices: Seq<D> = seq![self.device];
        let ghost mut schedules: Seq<Schedule<D::Message, D::Reply, D::Task>> = seq![self.supervisor@];
        let mut actor: usize = 0;
        while actor < count
            invariant
                actor <= count,
                Self::advanced_all(actor as nat, devices, schedules),
                devices[0] == old(self).device,
                schedules[0] == old(self).supervisor@,
                devices[actor as int] == self.device,
                schedules[actor as int] == self.supervisor@,
                old(self).schedule().idle() ==> self.device == old(self).device,
                old(self).schedule().idle() ==> self.supervisor@ == old(self).supervisor@,
            decreases count - actor,
        {
            self.advance(actor);
            proof {
                devices = devices.push(self.device);
                schedules = schedules.push(self.supervisor@);
            }
            actor = actor + 1;
        }
        let ghost first_devices = devices;
        let ghost first_schedules = schedules;
        actor = 0;
        while actor < count
            invariant
                actor <= count,
                devices.len() == count + actor + 1,
                schedules.len() == count + actor + 1,
                devices.take(count as int + 1) == first_devices,
                schedules.take(count as int + 1) == first_schedules,
                Self::served_all(actor as nat, devices.skip(count as int), schedules.skip(count as int)),
                devices.last() == self.device,
                schedules.last() == self.supervisor@,
                old(self).schedule().idle() ==> self.device == old(self).device,
                old(self).schedule().idle() ==> self.supervisor@ == old(self).supervisor@,
            decreases count - actor,
        {
            let ghost earlier_devices = devices;
            let ghost earlier_schedules = schedules;
            self.serve(actor);
            proof {
                devices = devices.push(self.device);
                schedules = schedules.push(self.supervisor@);
                assert(devices.take(count as int + 1) =~= earlier_devices.take(count as int + 1));
                assert(schedules.take(count as int + 1) =~= earlier_schedules.take(count as int + 1));
                assert(devices.skip(count as int) =~= earlier_devices.skip(count as int).push(self.device));
                assert(schedules.skip(count as int) =~= earlier_schedules.skip(count as int).push(self.supervisor@));
            }
            actor = actor + 1;
        }
        self.supervisor.progress();
        proof {
            assert(devices[0] == first_devices[0]);
            assert(schedules[0] == first_schedules[0]);
            assert(count as nat == old(self).schedule().actors.len());
            assert(Self::ticked(
                old(self).schedule().actors.len(),
                devices,
                schedules,
                self.device(),
                self.schedule(),
            ));
        }
    }

    /// Tells `actor` that the interrupt `irqn` has fired, if it is bound to
    /// it; otherwise nothing changes.
    ///
    /// The handler runs to its end before the call returns.
    pub fn raise(&mut self, irqn: i16, actor: usize) -> (raised: bool)
        ensures
            raised == old(self).schedule().bound(irqn, actor as int),
            Self::raised(
                old(self).device(),
                old(self).schedule(),
                irqn,
                actor,
                final(self).device(),
                final(self).schedule(),
            ),
            final(self).schedule().wf(),
    {
        let raised = self.supervisor.is_bound(irqn, actor);
        if raised {
            self.device.interrupt(actor, irqn, &mut self.supervisor);
        }
        proof {
            use_type_invariant(&self.supervisor);
        }
        raised
    }

    /// Forwards the interrupt `irqn` to every actor that is bound to it, in
    /// the order in which the actors were mounted.
    ///
    /// Each handler runs to its end before the call returns. Where no actor
    /// is bound to the interrupt, nothing changes.
    pub fn on_interrupt(&mut self, irqn: i16)
        ensures
            exists|actors: Seq<usize>, devices: Seq<D>, schedules: Seq<Schedule<D::Message, D::Reply, D::Task>>|
                {
                    &&& #[trigger] Self::raised_all(irqn, actors, devices, schedules)
                    &&& forall|a: usize| actors.contains(a) <==> old(self).schedule().bound(irqn, a as int)
                    &&& forall|i: int, j: int| 0 <= i < j < actors.len() ==> actors[i] < actors[j]
                    &&& devices[0] == old(self).device()
                    &&& schedules[0] == old(self).schedule()
                    &&& devices.last() == final(self).device()
                    &&& schedules.last() == final(self).schedule()
                },
            old(self).schedule().unbound(irqn) ==> final(self).device() == old(self).device(),
            old(self).schedule().unbound(irqn) ==> final(self).schedule() == old(self).schedule(),
            final(self).schedule().wf(),
    {
        let actors = self.supervisor.bound(irqn);
        proof {
            if old(self).schedule().unbound(irqn) && actors@.len() > 0 {
                assert(actors@.contains(actors@[0]));
            }
        }
        let ghost mut devices: Seq<D> = seq![self.device];
        let ghost mut schedules: Seq<Schedule<D::Message, D::Reply, D::Task>> = seq![self.supervisor@];
        let mut next: usize = 0;
        while next < actors.len()
            invariant
                next <= actors.len(),
                Self::raised_all(irqn, actors@.take(next as int), devices, schedules),
                devices[0] == old(self).device,
                schedules[0] == old(self).supervisor@,
                devices.last() == self.device,
                schedules.last() == self.supervisor@,
                actors@.len() == 0 ==> self.device == old(self).device,
                actors@.len() == 0 ==> self.supervisor@ == old(self).supervisor@,
            decreases actors.len() - next,
        {
            self.raise(irqn, actors[next]);
            proof {
                devices = devices.push(self.device);
                schedules = schedules.push(self.supervisor@);
            }
            next = next + 1;
        }
        proof {
            use_type_invariant(&self.supervisor);
            assert(actors@.take(next as int) =~= actors@);
        }
    }

    /// Hands an event that was raised outside the actors to the device.
    pub fn on_event<E>(&mut self, event: E) where D: EventConsumer<E>
        ensures
            D::consumes(
                old(self).device(),
                old(self).schedule(),
                event,
                final(self).device(),
                final(self).schedule(),
            ),
    {
        self.device.on_event(event, &mut self.supervisor)
    }
}

} // verus!
