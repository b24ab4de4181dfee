use drogue_device::actor::Actor;
use drogue_device::address::Address;
use drogue_device::bind::Bind;
use drogue_device::bus::{EventBus, EventConsumer};
use drogue_device::device::{Device, DeviceContext, Lifecycle};
use drogue_device::driver::sensor::hts221::ready::DataReady;
use drogue_device::driver::sensor::hts221::sensor::{Claim, Diagnostic, Progress, Sensor, Work};
use drogue_device::driver::sensor::hts221::SensorAcquisition;
use drogue_device::handler::{Completion, NotificationHandler};
use drogue_device::schedule::{Envelope, Phase};
use drogue_device::supervisor::Supervisor;
use drogue_device::synchronization::{Mutex, Ticket};

// ---------------------------------------------------------------------------
// A device of actors that record what they are handed.
// ---------------------------------------------------------------------------

#[derive(Debug, PartialEq, Eq, Clone, Copy)]
enum Seen {
    Phase(Lifecycle),
    Finished(Lifecycle),
    Tag(u32),
    Interrupt(i16),
}

#[derive(Debug, PartialEq, Eq, Clone, Copy)]
struct Tag(u32);

impl From<Tag> for u32 {
    fn from(tag: Tag) -> u32 {
        tag.0
    }
}

/// Work that needs `steps` more steps to finish what `event` set off.
#[derive(Debug, PartialEq, Eq)]
struct Countdown {
    event: Lifecycle,
    steps: u32,
}

struct Witness {
    /// How many steps the work takes that `Initialize` sets off.
    effort: u32,
    seen: Vec<Seen>,
}

impl NotificationHandler<Lifecycle> for Witness {
    type Reply = ();
    type Task = Countdown;

    fn on_notification(&mut self, event: Lifecycle) -> Completion<(), Countdown> {
        self.seen.push(Seen::Phase(event));
        if event == Lifecycle::Initialize && self.effort > 0 {
            Completion::defer(Countdown { event, steps: self.effort })
        } else {
            self.seen.push(Seen::Finished(event));
            Completion::immediate(())
        }
    }
}

impl NotificationHandler<Tag> for Witness {
    type Reply = ();
    type Task = Countdown;

    fn on_notification(&mut self, event: Tag) -> Completion<(), Countdown> {
        self.seen.push(Seen::Tag(event.0));
        Completion::immediate(())
    }
}

impl Actor for Witness {
    type Configuration = u32;
    type Task = Countdown;

    /// Setup takes as many steps as the configuration says.
    fn on_mount(&mut self, configuration: u32, _address: Address<Self>) -> Completion<(), Countdown> {
        if configuration > 0 {
            Completion::defer(Countdown { event: Lifecycle::Hibernate, steps: configuration })
        } else {
            Completion::immediate(())
        }
    }
}

#[derive(Debug, PartialEq, Eq, Clone, Copy)]
struct Report(u32);

struct Panel {
    witnesses: Vec<Witness>,
    addresses: Vec<Address<Witness>>,
    /// Which witness is bound to which interrupt.
    wiring: Vec<(i16, usize)>,
    reports: Vec<Report>,
    /// The order in which handlers ran, by actor.
    trace: Vec<(usize, Seen)>,
    /// How many steps the setup of each witness takes.
    setup: Vec<u32>,
}

impl Panel {
    fn new(efforts: &[u32]) -> Panel {
        Panel {
            witnesses: efforts.iter().map(|effort| Witness { effort: *effort, seen: Vec::new() }).collect(),
            addresses: Vec::new(),
            wiring: Vec::new(),
            reports: Vec::new(),
            trace: Vec::new(),
            setup: vec![0; efforts.len()],
        }
    }

    fn note(&mut self, actor: usize, from: usize) {
        for seen in &self.witnesses[actor].seen[from..] {
            self.trace.push((actor, *seen));
        }
    }
}

impl Device for Panel {
    type Message = u32;
    type Reply = ();
    type Task = Countdown;

    fn mount(&mut self, _bus: &EventBus<Self>, supervisor: &mut Supervisor<u32, (), Countdown>) {
        for witness in 0..self.witnesses.len() {
            let address = supervisor.mount().unwrap();
            match self.witnesses[witness].on_mount(self.setup[witness], address) {
                Completion::Immediate(()) => {},
                Completion::Deferred(task) => assert!(supervisor.defer(address, task)),
            }
            self.addresses.push(address);
        }
        for (irqn, witness) in &self.wiring {
            assert!(supervisor.bind(*irqn, self.addresses[*witness]));
        }
    }

    fn dispatch(
        &mut self,
        actor: usize,
        envelope: Envelope<u32>,
        _supervisor: &mut Supervisor<u32, (), Countdown>,
    ) -> Completion<(), Countdown> {
        let from = self.witnesses[actor].seen.len();
        let completion = match envelope {
            Envelope::Lifecycle(event) => self.witnesses[actor].on_notification(event),
            Envelope::Notification(tag) => self.witnesses[actor].on_notification(Tag(tag)),
            Envelope::Request(_, tag) => self.witnesses[actor].on_notification(Tag(tag)),
        };
        self.note(actor, from);
        completion
    }

    fn resume(
        &mut self,
        actor: usize,
        task: Countdown,
        _supervisor: &mut Supervisor<u32, (), Countdown>,
    ) -> Completion<(), Countdown> {
        if task.steps > 1 {
            Completion::defer(Countdown { event: task.event, steps: task.steps - 1 })
        } else {
            let from = self.witnesses[actor].seen.len();
            self.witnesses[actor].seen.push(Seen::Finished(task.event));
            self.note(actor, from);
            Completion::immediate(())
        }
    }

    fn interrupt(&mut self, actor: usize, irqn: i16, supervisor: &mut Supervisor<u32, (), Countdown>) {
        let from = self.witnesses[actor].seen.len();
        self.witnesses[actor].seen.push(Seen::Interrupt(irqn));
        self.note(actor, from);
        // An interrupt handler may send messages.
        assert!(self.addresses[actor].notify(supervisor, Tag(irqn as u32 + 100)));
    }
}

impl EventConsumer<Report> for Panel {
    fn on_event(&mut self, event: Report, supervisor: &mut Supervisor<u32, (), Countdown>) {
        self.reports.push(event);
        // The device passes the event on to the actors that care.
        for address in &self.addresses {
            assert!(address.notify(supervisor, Tag(event.0)));
        }
    }
}

#[test]
fn new_context_is_mounting_and_empty() {
    let context = DeviceContext::new(Panel::new(&[0, 0]));
    assert_eq!(context.supervisor().phase(), Phase::Mounting);
    assert_eq!(context.supervisor().actor_count(), 0);
    assert_eq!(context.get_ref().witnesses.len(), 2);
    assert!(context.get_ref().addresses.is_empty());
}

#[test]
fn mount_registers_the_actors_and_sets_off_the_lifecycle() {
    let mut context = DeviceContext::new(Panel::new(&[0, 0, 0]));
    assert!(context.mount());
    assert_eq!(context.supervisor().phase(), Phase::Initializing);
    assert_eq!(context.supervisor().actor_count(), 3);
    assert_eq!(context.get_ref().addresses.len(), 3);
    for actor in 0..3 {
        assert_eq!(context.supervisor().pending(actor), 1);
    }
    // No handler has run yet.
    assert!(context.get_ref().trace.is_empty());
}

#[test]
fn mount_is_single_use() {
    let mut context = DeviceContext::new(Panel::new(&[0]));
    assert!(context.mount());
    assert!(!context.mount());
    assert_eq!(context.supervisor().actor_count(), 1);
    assert_eq!(context.get_ref().addresses.len(), 1);
    assert_eq!(context.supervisor().pending(0), 1);
    context.tick();
    context.tick();
    assert!(!context.mount());
    assert_eq!(context.supervisor().phase(), Phase::Running);
}

#[test]
fn tick_before_mount_does_nothing() {
    let mut context = DeviceContext::new(Panel::new(&[0]));
    context.tick();
    assert_eq!(context.supervisor().phase(), Phase::Mounting);
    assert!(context.get_ref().trace.is_empty());
}

#[test]
fn every_actor_sees_initialize_finish_before_anyone_sees_start() {
    // The first actor initializes at once, the second needs three steps,
    // the third one step.
    let mut context = DeviceContext::new(Panel::new(&[0, 3, 1]));
    assert!(context.mount());
    let mut ticks = 0;
    while !context.supervisor().is_quiescent() || context.supervisor().phase() != Phase::Running {
        context.tick();
        ticks += 1;
        assert!(ticks < 20);
    }
    // Delivery, three steps of the slowest actor, then `Start`.
    assert_eq!(ticks, 5);

    let panel = context.get_ref();
    for witness in &panel.witnesses {
        assert_eq!(
            witness.seen,
            vec![
                Seen::Phase(Lifecycle::Initialize),
                Seen::Finished(Lifecycle::Initialize),
                Seen::Phase(Lifecycle::Start),
                Seen::Finished(Lifecycle::Start),
            ]
        );
    }
    let first_start = panel.trace.iter().position(|(_, seen)| *seen == Seen::Phase(Lifecycle::Start)).unwrap();
    let finished: Vec<usize> = panel.trace[..first_start]
        .iter()
        .filter(|(_, seen)| *seen == Seen::Finished(Lifecycle::Initialize))
        .map(|(actor, _)| *actor)
        .collect();
    assert_eq!(finished, vec![0, 2, 1]);
    assert!(panel.trace[first_start..].iter().all(|(_, seen)| !matches!(
        seen,
        Seen::Phase(Lifecycle::Initialize) | Seen::Finished(Lifecycle::Initialize)
    )));
}

#[test]
fn start_waits_as_long_as_initialization_takes() {
    let mut context = DeviceContext::new(Panel::new(&[7]));
    assert!(context.mount());
    for _ in 0..7 {
        context.tick();
        assert_eq!(context.supervisor().phase(), Phase::Initializing);
        assert!(!context.get_ref().witnesses[0].seen.contains(&Seen::Phase(Lifecycle::Start)));
    }
    context.tick();
    assert_eq!(context.supervisor().phase(), Phase::Running);
    context.tick();
    assert!(context.get_ref().witnesses[0].seen.contains(&Seen::Phase(Lifecycle::Start)));
}

#[test]
fn deferred_work_is_first_resumed_in_the_next_tick() {
    let mut context = DeviceContext::new(Panel::new(&[1]));
    assert!(context.mount());
    context.tick();
    // Handed `Initialize` and deferred: one step is left, and it was not
    // taken in the tick that deferred it.
    assert_eq!(context.get_ref().witnesses[0].seen, vec![Seen::Phase(Lifecycle::Initialize)]);
    assert!(!context.supervisor().is_quiescent());
    assert_eq!(context.supervisor().phase(), Phase::Initializing);
    context.tick();
    assert_eq!(
        context.get_ref().witnesses[0].seen,
        vec![Seen::Phase(Lifecycle::Initialize), Seen::Finished(Lifecycle::Initialize)]
    );
    assert_eq!(context.supervisor().phase(), Phase::Running);
}

#[test]
fn immediate_completions_take_one_message_per_tick() {
    let mut context = DeviceContext::new(Panel::new(&[0]));
    assert!(context.mount());
    context.tick();
    context.tick();
    assert_eq!(context.supervisor().phase(), Phase::Running);
    context.on_event(Report(1));
    context.on_event(Report(2));
    context.on_event(Report(3));
    let before = context.get_ref().witnesses[0].seen.len();
    context.tick();
    assert_eq!(context.get_ref().witnesses[0].seen[before..], [Seen::Tag(1)]);
    context.tick();
    context.tick();
    assert_eq!(context.get_ref().witnesses[0].seen[before..], [Seen::Tag(1), Seen::Tag(2), Seen::Tag(3)]);
    assert!(context.supervisor().is_quiescent());
}

#[test]
fn deferred_setup_comes_before_the_first_envelope() {
    let mut panel = Panel::new(&[0, 0]);
    panel.setup = vec![2, 0];
    let mut context = DeviceContext::new(panel);
    assert!(context.mount());
    // First tick: the setup of the first actor takes a step; the second
    // actor is handed `Initialize`.
    context.tick();
    assert_eq!(
        context.get_ref().trace,
        vec![(1, Seen::Phase(Lifecycle::Initialize)), (1, Seen::Finished(Lifecycle::Initialize))]
    );
    // Second tick: the setup finishes, and `Initialize` is handed over.
    context.tick();
    assert_eq!(
        context.get_ref().witnesses[0].seen,
        vec![
            Seen::Finished(Lifecycle::Hibernate),
            Seen::Phase(Lifecycle::Initialize),
            Seen::Finished(Lifecycle::Initialize),
        ]
    );
    assert_eq!(context.supervisor().phase(), Phase::Running);
    context.tick();
    assert_eq!(context.get_ref().witnesses[0].seen.last(), Some(&Seen::Finished(Lifecycle::Start)));
    assert_eq!(context.get_ref().witnesses[1].seen.last(), Some(&Seen::Finished(Lifecycle::Start)));
}

#[test]
fn serve_and_advance_take_one_actor_one_step() {
    let mut context = DeviceContext::new(Panel::new(&[2, 0]));
    assert!(context.mount());
    // Nothing is deferred yet.
    assert!(!context.advance(0));
    assert!(!context.advance(7));
    assert!(context.serve(0));
    assert_eq!(context.get_ref().trace, vec![(0, Seen::Phase(Lifecycle::Initialize))]);
    // The first actor is at work: it is handed nothing more.
    assert!(!context.serve(0));
    assert!(!context.serve(7));
    assert!(context.advance(0));
    assert_eq!(context.get_ref().trace.len(), 1);
    assert_eq!(context.supervisor().pending(1), 1);
    assert!(context.advance(0));
    assert!(!context.advance(0));
    assert_eq!(context.get_ref().trace[1..], [(0, Seen::Finished(Lifecycle::Initialize))]);
    assert!(context.serve(1));
    assert!(!context.serve(1));
    assert_eq!(context.supervisor().phase(), Phase::Initializing);
    context.tick();
    assert_eq!(context.supervisor().phase(), Phase::Running);
}

#[test]
fn raise_reaches_only_a_bound_actor() {
    let mut panel = Panel::new(&[0, 0]);
    panel.wiring = vec![(3, 1)];
    let mut context = DeviceContext::new(panel);
    assert!(context.mount());
    assert!(!context.raise(3, 0));
    assert!(!context.raise(4, 1));
    assert!(!context.raise(3, 2));
    assert!(context.get_ref().trace.is_empty());
    assert!(context.raise(3, 1));
    assert_eq!(context.get_ref().trace, vec![(1, Seen::Interrupt(3))]);
    assert_eq!(context.supervisor().pending(1), 2);
}

#[test]
fn a_quiet_tick_changes_nothing() {
    let mut context = DeviceContext::new(Panel::new(&[0, 0]));
    assert!(context.mount());
    for _ in 0..3 {
        context.tick();
    }
    assert!(context.supervisor().is_quiescent());
    let trace = context.get_ref().trace.clone();
    for _ in 0..5 {
        context.tick();
    }
    assert_eq!(context.get_ref().trace, trace);
    assert!(context.supervisor().is_quiescent());
    assert_eq!(context.supervisor().phase(), Phase::Running);
}

#[test]
fn publishing_twice_is_consumed_twice() {
    let mut panel = Panel::new(&[]);
    let mut supervisor = Supervisor::new();
    let bus: EventBus<Panel> = EventBus::new();
    bus.publish(&mut panel, &mut supervisor, Report(9));
    assert_eq!(panel.reports, vec![Report(9)]);
    bus.publish(&mut panel, &mut supervisor, Report(9));
    assert_eq!(panel.reports, vec![Report(9), Report(9)]);
    let copy = bus;
    copy.publish(&mut panel, &mut supervisor, Report(4));
    bus.publish(&mut panel, &mut supervisor, Report(9));
    assert_eq!(panel.reports, vec![Report(9), Report(9), Report(4), Report(9)]);
}

#[test]
fn events_on_the_context_reach_the_device_each_time() {
    let mut context = DeviceContext::new(Panel::new(&[0, 0]));
    assert!(context.mount());
    context.tick();
    context.tick();
    context.on_event(Report(5));
    context.on_event(Report(5));
    assert_eq!(context.get_ref().reports, vec![Report(5), Report(5)]);
    // The device fanned both out to both actors.
    assert_eq!(context.supervisor().pending(0), 2);
    assert_eq!(context.supervisor().pending(1), 2);
    context.tick();
    context.tick();
    for witness in &context.get_ref().witnesses {
        assert_eq!(witness.seen[witness.seen.len() - 2..], [Seen::Tag(5), Seen::Tag(5)]);
    }
}

#[test]
fn interrupts_reach_the_bound_actors_at_once() {
    let mut panel = Panel::new(&[0, 0, 0]);
    panel.wiring = vec![(3, 2), (3, 0), (8, 1)];
    let mut context = DeviceContext::new(panel);
    assert!(context.mount());
    context.tick();
    context.tick();
    let before = context.get_ref().trace.len();

    context.on_interrupt(3);
    assert_eq!(
        context.get_ref().trace[before..],
        [(0, Seen::Interrupt(3)), (2, Seen::Interrupt(3))]
    );
    // What the handlers sent waits in the inboxes.
    assert_eq!(context.supervisor().pending(0), 1);
    assert_eq!(context.supervisor().pending(1), 0);
    assert_eq!(context.supervisor().pending(2), 1);

    context.on_interrupt(8);
    assert_eq!(context.get_ref().trace[before + 2..], [(1, Seen::Interrupt(8))]);

    context.tick();
    assert_eq!(context.get_ref().witnesses[0].seen.last(), Some(&Seen::Tag(103)));
    assert_eq!(context.get_ref().witnesses[1].seen.last(), Some(&Seen::Tag(108)));
    assert_eq!(context.get_ref().witnesses[2].seen.last(), Some(&Seen::Tag(103)));
}

#[test]
fn an_unbound_interrupt_changes_nothing() {
    let mut panel = Panel::new(&[0]);
    panel.wiring = vec![(3, 0)];
    let mut context = DeviceContext::new(panel);
    assert!(context.mount());
    context.tick();
    context.tick();
    let trace = context.get_ref().trace.clone();
    context.on_interrupt(4);
    assert_eq!(context.get_ref().trace, trace);
    assert!(context.supervisor().is_quiescent());
}

// ---------------------------------------------------------------------------
// An echo service: a welcome first, then every byte back.
// ---------------------------------------------------------------------------

struct Received(u8);

impl From<Received> for u8 {
    fn from(received: Received) -> u8 {
        received.0
    }
}

struct EchoServer {
    outbound: Vec<u8>,
}

impl Actor for EchoServer {
    /// The welcome that the service sends first.
    type Configuration = &'static str;
    type Task = ();

    fn on_mount(&mut self, configuration: &'static str, _address: Address<Self>) -> Completion<(), ()> {
        self.outbound.extend_from_slice(configuration.as_bytes());
        Completion::immediate(())
    }
}

impl NotificationHandler<Lifecycle> for EchoServer {
    type Reply = ();
    type Task = ();

    fn on_notification(&mut self, _event: Lifecycle) -> Completion<(), ()> {
        Completion::immediate(())
    }
}

impl NotificationHandler<Received> for EchoServer {
    type Reply = ();
    type Task = ();

    fn on_notification(&mut self, event: Received) -> Completion<(), ()> {
        self.outbound.push(event.0);
        Completion::immediate(())
    }
}

struct Terminal {
    welcome: &'static str,
    server: EchoServer,
    address: Option<Address<EchoServer>>,
}

impl Terminal {
    fn new(welcome: &'static str) -> Terminal {
        Terminal { welcome, server: EchoServer { outbound: Vec::new() }, address: None }
    }
}

impl Device for Terminal {
    type Message = u8;
    type Reply = ();
    type Task = ();

    fn mount(&mut self, _bus: &EventBus<Self>, supervisor: &mut Supervisor<u8, (), ()>) {
        let address = supervisor.mount().unwrap();
        assert_eq!(self.server.on_mount(self.welcome, address), Completion::Immediate(()));
        self.address = Some(address);
    }

    fn dispatch(
        &mut self,
        _actor: usize,
        envelope: Envelope<u8>,
        _supervisor: &mut Supervisor<u8, (), ()>,
    ) -> Completion<(), ()> {
        match envelope {
            Envelope::Lifecycle(event) => self.server.on_notification(event),
            Envelope::Notification(byte) => self.server.on_notification(Received(byte)),
            Envelope::Request(_, byte) => self.server.on_notification(Received(byte)),
        }
    }

    fn resume(&mut self, _actor: usize, _task: (), _supervisor: &mut Supervisor<u8, (), ()>) -> Completion<(), ()> {
        Completion::immediate(())
    }

    fn interrupt(&mut self, _actor: usize, _irqn: i16, _supervisor: &mut Supervisor<u8, (), ()>) {}
}

impl EventConsumer<Received> for Terminal {
    fn on_event(&mut self, event: Received, supervisor: &mut Supervisor<u8, (), ()>) {
        assert!(self.address.unwrap().notify(supervisor, event));
    }
}

#[test]
fn echo_server_welcome_is_exact_after_mount() {
    let welcome = "Welcome to the Drogue Echo Service\r\n";
    let mut context = DeviceContext::new(Terminal::new(welcome));
    assert!(context.get_ref().server.outbound.is_empty());
    assert!(context.mount());
    // Right after mount, before any tick: the welcome and nothing else.
    assert_eq!(context.get_ref().server.outbound, welcome.as_bytes());
    context.tick();
    context.tick();
    assert_eq!(context.supervisor().phase(), Phase::Running);
    assert_eq!(context.get_ref().server.outbound, welcome.as_bytes());
    // From now on every byte comes back.
    context.on_event(Received(b'a'));
    context.on_event(Received(b'b'));
    assert_eq!(context.get_ref().server.outbound, welcome.as_bytes());
    context.tick();
    context.tick();
    let mut expected = welcome.as_bytes().to_vec();
    expected.extend_from_slice(b"ab");
    assert_eq!(context.get_ref().server.outbound, expected);
}

#[test]
fn echo_server_sends_its_welcome_before_it_echoes() {
    let welcome = "Welcome to the Drogue Echo Service\r\n";
    let mut context = DeviceContext::new(Terminal::new(welcome));
    assert!(context.mount());
    // Input that arrives early waits in the inbox, behind `Initialize`.
    context.on_event(Received(b'x'));
    assert_eq!(context.get_ref().server.outbound, welcome.as_bytes());
    context.tick();
    assert_eq!(context.get_ref().server.outbound, welcome.as_bytes());
    for byte in b"hi!" {
        context.on_event(Received(*byte));
    }
    for _ in 0..6 {
        context.tick();
    }
    let outbound = &context.get_ref().server.outbound;
    assert_eq!(&outbound[..welcome.len()], welcome.as_bytes());
    assert_eq!(&outbound[welcome.len()..], b"xhi!");
    assert!(context.supervisor().is_quiescent());
}

// ---------------------------------------------------------------------------
// The sensor on a bus that it shares with another actor.
// ---------------------------------------------------------------------------

/// The registers of a sensor, for the driver to talk to.
struct Wire {
    registers: [u8; 64],
    /// How many readings wait; each read of the temperature takes one.
    waiting: u32,
    writes: Vec<(u8, u8, u8)>,
    reads: Vec<(u8, u8, usize)>,
}

impl Wire {
    fn new() -> Wire {
        let mut registers = [0u8; 64];
        // Calibration at 0x30.
        let block: [u8; 16] = [40, 80, 80, 160, 0, 0, 0xA0, 0x0F, 0, 0, 0x70, 0x17, 0x2C, 0x01, 0xF4, 0x01];
        registers[0x30..0x40].copy_from_slice(&block);
        registers[0x21] = 0x02;
        registers[0x22] = 0x80;
        Wire { registers, waiting: 0, writes: Vec::new(), reads: Vec::new() }
    }

    fn measure(&mut self, t_out: i16, h_out: i16) {
        self.registers[0x28..0x2A].copy_from_slice(&h_out.to_le_bytes());
        self.registers[0x2A..0x2C].copy_from_slice(&t_out.to_le_bytes());
        self.waiting += 1;
    }

    fn read(&mut self, address: u8, register: u8, length: usize) -> Vec<u8> {
        self.reads.push((address, register, length));
        let start = (register & 0x7F) as usize;
        if start == 0x27 {
            return vec![if self.waiting > 0 { 0x03 } else { 0x00 }];
        }
        if start == 0x2A && self.waiting > 0 {
            self.waiting -= 1;
        }
        self.registers[start..start + length].to_vec()
    }

    fn write(&mut self, address: u8, register: u8, value: u8) {
        self.writes.push((address, register, value));
        self.registers[register as usize] = value;
    }
}

#[derive(Debug, PartialEq, Eq)]
enum Job {
    /// The sensor's work.
    Sensor(Work),
    /// The other user of the bus, and its place in the line.
    Logger(Ticket, u32),
}

#[derive(Debug, PartialEq, Eq)]
enum Mail {
    Ready,
    Log,
}

impl From<DataReady> for Mail {
    fn from(_: DataReady) -> Mail {
        Mail::Ready
    }
}

struct Station {
    sensor: Sensor<Station, Wire>,
    bus: Mutex<Wire>,
    sensor_address: Option<Address<Sensor<Station, Wire>>>,
    readings: Vec<SensorAcquisition>,
    skipped: Vec<Diagnostic>,
    /// Whether the device binds the sensor to the bus.
    wired: bool,
    /// Who held the bus, in order.
    holders: Vec<&'static str>,
    /// What the sensor wrote to and read from the bus.
    writes: Vec<(u8, u8, u8)>,
    reads: Vec<(u8, u8, usize)>,
}

impl Station {
    fn new(wired: bool) -> Station {
        Station {
            sensor: Sensor::new(),
            bus: Mutex::new(Wire::new()),
            sensor_address: None,
            readings: Vec::new(),
            skipped: Vec::new(),
            wired,
            holders: Vec::new(),
            writes: Vec::new(),
            reads: Vec::new(),
        }
    }

    /// Runs the sensor's work as far as it goes without waiting.
    fn drive(&mut self, work: Work, supervisor: &mut Supervisor<Mail, (), Job>) -> Completion<(), Job> {
        let (mut guard, task) = match self.sensor.claim(&mut self.bus, work) {
            Claim::Waiting(work) => return Completion::defer(Job::Sensor(work)),
            Claim::Finished(outcome) => {
                assert_eq!(outcome.conclude(self, supervisor), None);
                return Completion::immediate(());
            },
            Claim::Granted(guard, task) => (guard, task),
        };
        self.holders.push("sensor");
        let mut task = task;
        let mut response = Vec::new();
        let outcome = loop {
            match self.sensor.resume(task, &response) {
                Progress::Read { address, register, length, then } => {
                    response = guard.get_mut().read(address.value(), register, length);
                    task = then;
                },
                Progress::Write { address, register, value, then } => {
                    guard.get_mut().write(address.value(), register, value);
                    response = Vec::new();
                    task = then;
                },
                Progress::Finished(outcome) => break outcome,
            }
        };
        self.writes = guard.get().writes.clone();
        self.reads = guard.get().reads.clone();
        assert!(self.bus.unlock(guard).is_ok());
        if let Some(diagnostic) = outcome.conclude(self, supervisor) {
            self.skipped.push(diagnostic);
        }
        Completion::immediate(())
    }
}

impl Device for Station {
    type Message = Mail;
    type Reply = ();
    type Task = Job;

    fn mount(&mut self, bus: &EventBus<Self>, supervisor: &mut Supervisor<Mail, (), Job>) {
        let sensor = supervisor.mount().unwrap();
        let i2c: Address<Mutex<Wire>> = supervisor.mount().unwrap();
        assert_eq!(self.sensor.on_mount(*bus, sensor), Completion::Immediate(()));
        assert_eq!(self.bus.on_mount((), i2c), Completion::Immediate(()));
        if self.wired {
            self.sensor.on_bind(i2c);
        }
        assert!(supervisor.bind(5, sensor));
        self.sensor_address = Some(sensor);
    }

    fn dispatch(
        &mut self,
        actor: usize,
        envelope: Envelope<Mail>,
        _supervisor: &mut Supervisor<Mail, (), Job>,
    ) -> Completion<(), Job> {
        match (actor, envelope) {
            (0, Envelope::Lifecycle(event)) => match self.sensor.on_notification(event) {
                Completion::Immediate(()) => Completion::immediate(()),
                Completion::Deferred(work) => Completion::defer(Job::Sensor(work)),
            },
            (0, Envelope::Notification(Mail::Ready)) => match self.sensor.on_notification(DataReady) {
                Completion::Immediate(()) => Completion::immediate(()),
                Completion::Deferred(work) => Completion::defer(Job::Sensor(work)),
            },
            // The bus itself is asked to log: it takes its place in line.
            (1, Envelope::Notification(Mail::Log)) => Completion::defer(Job::Logger(self.bus.enqueue(), 2)),
            _ => Completion::immediate(()),
        }
    }

    fn resume(&mut self, _actor: usize, task: Job, supervisor: &mut Supervisor<Mail, (), Job>) -> Completion<(), Job> {
        match task {
            Job::Sensor(work) => self.drive(work, supervisor),
            Job::Logger(ticket, steps) => match self.bus.acquire(ticket) {
                Completion::Immediate(guard) => {
                    self.holders.push("logger");
                    assert!(self.bus.unlock(guard).is_ok());
                    Completion::immediate(())
                },
                Completion::Deferred(_) if steps == 0 => panic!("the logger starves"),
                Completion::Deferred(ticket) => Completion::defer(Job::Logger(ticket, steps - 1)),
            },
        }
    }

    fn interrupt(&mut self, _actor: usize, _irqn: i16, supervisor: &mut Supervisor<Mail, (), Job>) {
        assert!(self.sensor_address.unwrap().signal_data_ready(supervisor));
    }
}

struct LogRequest;

impl EventConsumer<LogRequest> for Station {
    fn on_event(&mut self, _event: LogRequest, supervisor: &mut Supervisor<Mail, (), Job>) {
        assert!(supervisor.notify(1, Mail::Log));
    }
}

impl EventConsumer<SensorAcquisition> for Station {
    fn on_event(&mut self, event: SensorAcquisition, _supervisor: &mut Supervisor<Mail, (), Job>) {
        self.readings.push(event);
    }
}

fn settle(context: &mut DeviceContext<Station>) {
    let mut ticks = 0;
    while !context.supervisor().is_quiescent() || context.supervisor().phase() != Phase::Running {
        context.tick();
        ticks += 1;
        assert!(ticks < 50);
    }
}

#[test]
fn sensor_is_initialized_then_calibrated() {
    let mut station = Station::new(true);
    station.bus = {
        let mut wire = Wire::new();
        wire.measure(1, 2);
        wire.measure(3, 4);
        Mutex::new(wire)
    };
    let mut context = DeviceContext::new(station);
    assert!(context.mount());
    assert_eq!(context.get_ref().sensor.calibrated(), None);
    // Run until `Initialize` has finished.
    while context.supervisor().phase() == Phase::Initializing {
        assert_eq!(context.get_ref().sensor.calibrated(), None);
        context.tick();
    }
    assert_eq!(context.get_ref().sensor.calibrated(), None);
    settle(&mut context);
    let calibration = context.get_ref().sensor.calibrated().unwrap();
    assert_eq!((calibration.t0_out, calibration.t1_out), (300, 500));
    assert_eq!((calibration.t0_degc_x8, calibration.t1_degc_x8), (80, 160));
    assert_eq!(context.get_ref().holders, vec!["sensor", "sensor"]);
    assert!(!context.get_ref().bus.is_locked());
}

#[test]
fn sensor_initialization_writes_the_control_registers() {
    let mut context = DeviceContext::new(Station::new(true));
    assert!(context.mount());
    settle(&mut context);
    // Reboot with the heater bit kept, full configuration, data-ready
    // enabled with the polarity kept.
    assert_eq!(context.get_ref().writes, vec![(0x5F, 0x21, 0x82), (0x5F, 0x20, 0x85), (0x5F, 0x22, 0x84)]);
    assert_eq!(
        context.get_ref().reads,
        vec![(0x5F, 0x21, 1), (0x5F, 0x20, 1), (0x5F, 0x22, 1), (0x5F, 0x27, 1), (0x5F, 0xB0, 16)]
    );
    assert!(context.get_ref().readings.is_empty());
    assert_eq!(context.get_ref().skipped, Vec::<Diagnostic>::new());
}

#[test]
fn sensor_initialization_discards_stale_readings() {
    let mut station = Station::new(true);
    station.bus = {
        let mut wire = Wire::new();
        wire.measure(1, 2);
        wire.measure(3, 4);
        Mutex::new(wire)
    };
    let mut context = DeviceContext::new(station);
    assert!(context.mount());
    settle(&mut context);
    assert_eq!(
        context.get_ref().reads[3..],
        [
            (0x5F, 0x27, 1),
            (0x5F, 0xA8, 2),
            (0x5F, 0xAA, 2),
            (0x5F, 0x27, 1),
            (0x5F, 0xA8, 2),
            (0x5F, 0xAA, 2),
            (0x5F, 0x27, 1),
            (0x5F, 0xB0, 16),
        ]
    );
    assert!(context.get_ref().readings.is_empty());
}

#[test]
fn the_bus_is_shared_in_order_of_arrival() {
    let mut context = DeviceContext::new(Station::new(true));
    assert!(context.mount());
    settle(&mut context);
    let before = context.get_ref().holders.len();
    // The sensor is signalled first and the logger asked second. The logger
    // joins the line for the bus when it is asked, the sensor only when its
    // deferred work takes its first step: so the logger is served first.
    context.on_interrupt(5);
    context.on_event(LogRequest);
    context.tick();
    assert_eq!(context.get_ref().bus.waiting(), 1);
    assert!(context.get_ref().holders[before..].is_empty());
    context.tick();
    assert_eq!(context.get_ref().holders[before..], ["logger"]);
    assert_eq!(context.get_ref().bus.waiting(), 1);
    assert!(context.get_ref().readings.is_empty());
    context.tick();
    assert_eq!(context.get_ref().holders[before..], ["logger", "sensor"]);
    assert_eq!(context.get_ref().bus.waiting(), 0);
    assert!(!context.get_ref().bus.is_locked());
    assert_eq!(context.get_ref().readings.len(), 1);
    assert!(context.supervisor().is_quiescent());
}

#[test]
fn data_ready_interrupt_publishes_a_calibrated_reading() {
    let mut context = DeviceContext::new(Station::new(true));
    assert!(context.mount());
    settle(&mut context);
    assert!(context.get_ref().readings.is_empty());

    context.on_interrupt(5);
    // The interrupt handler only queued the signal.
    assert!(context.get_ref().readings.is_empty());
    assert_eq!(context.supervisor().pending(0), 1);
    settle(&mut context);
    // The registers hold zero for both outputs.
    let t = 10.0 + 10.0 * (0.0 - 300.0) / 200.0;
    let h = 20.0 + 20.0 * (0.0 - 4000.0) / 2000.0;
    assert_eq!(
        context.get_ref().readings,
        vec![SensorAcquisition { temperature: (t * 1000.0) as i64, relative_humidity: (h * 1000.0) as i64 }]
    );
    assert_eq!(context.get_ref().readings[0], SensorAcquisition { temperature: -5_000, relative_humidity: -20_000 });
}

#[test]
fn a_reading_before_the_calibration_is_skipped() {
    let mut context = DeviceContext::new(Station::new(true));
    assert!(context.mount());
    // The data-ready signal comes while the sensor initializes: the reading
    // is asked for before `Start` has read the calibration.
    context.on_interrupt(5);
    context.tick();
    let mut ticks = 0;
    while context.get_ref().skipped.is_empty() {
        context.tick();
        ticks += 1;
        assert!(ticks < 20);
    }
    assert_eq!(context.get_ref().skipped, vec![Diagnostic::NoCalibration]);
    assert!(context.get_ref().readings.is_empty());
    assert_eq!(context.get_ref().sensor.calibrated(), None);
    settle(&mut context);
    assert!(context.get_ref().sensor.calibrated().is_some());
    assert!(context.get_ref().readings.is_empty());
}

#[test]
fn an_unwired_sensor_does_nothing() {
    let mut context = DeviceContext::new(Station::new(false));
    assert!(context.mount());
    settle(&mut context);
    assert_eq!(context.get_ref().sensor.calibrated(), None);
    context.on_interrupt(5);
    settle(&mut context);
    assert!(context.get_ref().readings.is_empty());
    assert!(context.get_ref().skipped.is_empty());
    assert!(context.get_ref().holders.is_empty());
}
