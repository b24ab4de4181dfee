//! The sensor actor.
//!
//! The sensor reacts to lifecycle events and to its data-ready signal. Each
//! reaction is deferred work on the I2C bus, which the sensor shares with
//! other actors through a [`Mutex`]. The work waits at one point only: for
//! the guard of the bus, which [`Sensor::claim`] asks for. Under the guard
//! it is a sequence of steps: [`Sensor::resume`] takes the step that is due
//! and the bytes that the last transfer returned, and says what to do next.
//! Whoever drives the sensor performs the transfers on the bus that the
//! guard holds.

use crate::actor::Actor;
use crate::address::Address;
use crate::bind::Bind;
use crate::bus::{EventBus, EventConsumer};
use crate::device::Lifecycle;
use crate::driver::sensor::hts221::calibration::Calibration;
use crate::driver::sensor::hts221::ready::DataReady;
use crate::driver::sensor::hts221::register::{
    byte, byte_at, decode_word, word, BlockDataUpdate, Ctrl1, Ctrl2, Ctrl3, OutputDataRate, Status,
    AUTO_INCREMENT, CALIBRATION, CTRL_REG1, CTRL_REG2, CTRL_REG3, HUMIDITY_OUT, STATUS_REG, TEMP_OUT,
};
use crate::driver::sensor::hts221::SensorAcquisition;
use crate::hal::i2c::I2cAddress;
use crate::handler::{Completion, NotificationHandler};
use crate::schedule::Envelope;
use crate::supervisor::Supervisor;
use crate::synchronization::{Exclusive, Mutex, Ticket};
use vstd::prelude::*;
use vstd::std_specs::convert::FromSpec;

verus! {

/// The address of the sensor on the I2C bus.
pub const ADDR: u8 = 0x5F;

/// The kinds of deferred work of the sensor.
#[derive(Copy, Clone, Debug, PartialEq, Eq, Structural)]
pub enum Job {
    /// Reboot the sensor, switch it on, enable its data-ready signal and
    /// discard readings that were taken before.
    Initialize,
    /// Read the factory calibration.
    Start,
    /// Read and convert one pair of outputs and publish the result.
    Acquire,
}

/// Deferred work of the sensor, where it can wait: before it has asked for
/// the bus, and in the line for the bus.
#[derive(Copy, Clone, Debug, PartialEq, Eq, Structural)]
pub enum Work {
    /// The work was accepted and nothing was done yet.
    Pending(Job),
    /// The work waits for the guard of the bus, at the given place in line.
    Waiting(Ticket, Job),
}

/// A step of the sensor's work under the guard of the bus.
///
/// The steps named after a register wait for the bytes of a transfer: those
/// ending in `Value` for the contents that were read, the others for a write
/// or a discarding read to finish.
#[derive(Copy, Clone, Debug, PartialEq, Eq, Structural)]
pub enum Task {
    /// The guard was just handed over; no transfer was made yet.
    Claimed(Job),
    Ctrl2Value,
    Ctrl2Stored,
    Ctrl1Value,
    Ctrl1Stored,
    Ctrl3Value,
    Ctrl3Stored,
    StatusValue,
    HumidityFlushed,
    TemperatureFlushed,
    CalibrationValue,
    TemperatureValue,
    /// Waits for the raw humidity; holds the raw temperature read before.
    HumidityValue(i16),
}

/// Why the sensor skipped an operation.
#[derive(Copy, Clone, Debug, PartialEq, Eq, Structural)]
pub enum Diagnostic {
    /// A reading was asked for before the calibration was read.
    NoCalibration,
    /// The calibration holds two reference points with the same raw output.
    DegenerateCalibration,
    /// A reading was taken, but the sensor was never given an event bus.
    NotMounted,
}

/// How deferred work of the sensor ended.
pub enum Outcome<D: EventConsumer<SensorAcquisition>> {
    /// Nothing is left to do.
    Done,
    /// The reading is to be published on the bus.
    Publish(EventBus<D>, SensorAcquisition),
    /// The operation was skipped; the diagnostic says why.
    Skipped(Diagnostic),
}

impl<D: EventConsumer<SensorAcquisition>> Outcome<D> {
    /// Brings finished work to its end: publishes the reading, if there is
    /// one, and returns the diagnostic, if the operation was skipped.
    ///
    /// The reading is published on the sensor's bus, which hands it to
    /// `device` at once. Without a reading nothing changes.
    pub fn conclude(
        self,
        device: &mut D,
        supervisor: &mut Supervisor<D::Message, D::Reply, D::Task>,
    ) -> (diagnostic: Option<Diagnostic>)
        ensures
            match self {
                Outcome::Done => {
                    &&& diagnostic is None
                    &&& *final(device) == *old(device)
                    &&& final(supervisor)@ == old(supervisor)@
                },
                Outcome::Publish(_, acquisition) => {
                    &&& diagnostic is None
                    &&& D::consumes(*old(device), old(supervisor)@, acquisition, *final(device), final(supervisor)@)
                },
                Outcome::Skipped(reason) => {
                    &&& diagnostic == Some(reason)
                    &&& *final(device) == *old(device)
                    &&& final(supervisor)@ == old(supervisor)@
                },
            },
    {
        match self {
            Outcome::Done => None,
            Outcome::Publish(bus, acquisition) => {
                bus.publish(device, supervisor, acquisition);
                None
            },
            Outcome::Skipped(reason) => Some(reason),
        }
    }
}

/// What the sensor needs next, under the guard of the bus.
///
/// Whoever drives the sensor does what is asked and then calls
/// [`Sensor::resume`] with the task in `then`: for `Read`, with the bytes
/// read; for `Write`, once the byte is written.
pub enum Progress<D: EventConsumer<SensorAcquisition>> {
    /// Read `length` bytes from the peripheral at `address`, starting at
    /// `register`.
    Read { address: I2cAddress, register: u8, length: usize, then: Task },
    /// Write `value` to `register` of the peripheral at `address`.
    Write { address: I2cAddress, register: u8, value: u8, then: Task },
    /// The work is finished; the guard is to be given back.
    Finished(Outcome<D>),
}

/// Where deferred work of the sensor stands with the bus.
pub enum Claim<D: EventConsumer<SensorAcquisition>, I> {
    /// The work waits and is to be resumed on a later tick.
    Waiting(Work),
    /// The guard was handed over: transfers begin, with the given task.
    Granted(Exclusive<I>, Task),
    /// The work is finished without the bus.
    Finished(Outcome<D>),
}

/// The HTS221 as an actor of a device of type `D`, on an I2C bus of type `I`.
///
/// The device is one that consumes the readings of the sensor.
pub struct Sensor<D: EventConsumer<SensorAcquisition>, I> {
    address: I2cAddress,
    i2c: Option<Address<Mutex<I>>>,
    calibration: Option<Calibration>,
    bus: Option<EventBus<D>>,
}

/// The register number that reads `register` and the registers after it in
/// one transfer.
pub open spec fn sequential(register: u8) -> u8 {
    register | AUTO_INCREMENT
}

/// CTRL_REG2 as read, with the reboot requested.
pub open spec fn booting(value: u8) -> u8 {
    (Ctrl2 { boot: true, ..Ctrl2::decode(value) }).encode()
}

/// CTRL_REG1 with the sensor switched on, one reading per second, and
/// outputs that change only once both of their bytes were read. These are
/// all the fields of the register, so what was read does not matter.
pub open spec fn measuring() -> u8 {
    (Ctrl1 {
        power_active: true,
        output_data_rate: OutputDataRate::Hz1,
        block_data_update: BlockDataUpdate::MsbLsbReading,
    }).encode()
}

/// CTRL_REG3 as read, with the data-ready signal enabled.
pub open spec fn signalling(value: u8) -> u8 {
    (Ctrl3 { enable: true, ..Ctrl3::decode(value) }).encode()
}

impl<D: EventConsumer<SensorAcquisition>, I> Sensor<D, I> {
    /// The address of the sensor on the I2C bus.
    pub closed spec fn address(&self) -> I2cAddress {
        self.address
    }

    /// The address of the mutex that guards the I2C bus, once bound.
    pub closed spec fn i2c(&self) -> Option<Address<Mutex<I>>> {
        self.i2c
    }

    /// The calibration, once read.
    pub closed spec fn calibration(&self) -> Option<Calibration> {
        self.calibration
    }

    /// The event bus, once mounted.
    pub closed spec fn bus(&self) -> Option<EventBus<D>> {
        self.bus
    }

    /// A sensor at the fixed bus address of the HTS221, neither mounted nor
    /// bound, without calibration.
    pub fn new() -> (sensor: Self)
        ensures
            sensor.address() == I2cAddress(ADDR),
            sensor.i2c() is None,
            sensor.calibration() is None,
            sensor.bus() is None,
    {
        Sensor { address: I2cAddress::new(ADDR), i2c: None, calibration: None, bus: None }
    }

    /// The calibration, once read.
    pub fn calibrated(&self) -> (calibration: Option<Calibration>)
        ensures
            calibration == self.calibration(),
    {
        self.calibration
    }

    /// What the sensor publishes, or why it publishes nothing, for a pair of
    /// raw outputs.
    pub open spec fn reading(self, t_out: i16, h_out: i16) -> Outcome<D> {
        match self.calibration() {
            None => Outcome::Skipped(Diagnostic::NoCalibration),
            Some(calibration) => match (calibration.temperature(t_out), calibration.humidity(h_out)) {
                (Some(temperature), Some(relative_humidity)) => match self.bus() {
                    Some(bus) => Outcome::Publish(
                        bus,
                        SensorAcquisition {
                            temperature: temperature as i64,
                            relative_humidity: relative_humidity as i64,
                        },
                    ),
                    None => Outcome::Skipped(Diagnostic::NotMounted),
                },
                _ => Outcome::Skipped(Diagnostic::DegenerateCalibration),
            },
        }
    }

    /// What the sensor needs next, when `task` is due and the last transfer
    /// returned `response`.
    pub open spec fn step(self, task: Task, response: Seq<u8>) -> Progress<D> {
        let address = self.address();
        match task {
            Task::Claimed(Job::Initialize) => Progress::Read {
                address,
                register: CTRL_REG2,
                length: 1,
                then: Task::Ctrl2Value,
            },
            Task::Claimed(Job::Start) => Progress::Read {
                address,
                register: sequential(CALIBRATION),
                length: 16,
                then: Task::CalibrationValue,
            },
            Task::Claimed(Job::Acquire) => if self.calibration() is Some {
                Progress::Read { address, register: sequential(TEMP_OUT), length: 2, then: Task::TemperatureValue }
            } else {
                Progress::Finished(Outcome::Skipped(Diagnostic::NoCalibration))
            },
            Task::Ctrl2Value => Progress::Write {
                address,
                register: CTRL_REG2,
                value: booting(byte_at(response, 0)),
                then: Task::Ctrl2Stored,
            },
            Task::Ctrl2Stored => Progress::Read { address, register: CTRL_REG1, length: 1, then: Task::Ctrl1Value },
            Task::Ctrl1Value => Progress::Write {
                address,
                register: CTRL_REG1,
                value: measuring(),
                then: Task::Ctrl1Stored,
            },
            Task::Ctrl1Stored => Progress::Read { address, register: CTRL_REG3, length: 1, then: Task::Ctrl3Value },
            Task::Ctrl3Value => Progress::Write {
                address,
                register: CTRL_REG3,
                value: signalling(byte_at(response, 0)),
                then: Task::Ctrl3Stored,
            },
            Task::Ctrl3Stored | Task::TemperatureFlushed => Progress::Read {
                address,
                register: STATUS_REG,
                length: 1,
                then: Task::StatusValue,
            },
            Task::StatusValue => {
                let status = Status::decode(byte_at(response, 0));
                if status.humidity_available || status.temperature_available {
                    Progress::Read {
                        address,
                        register: sequential(HUMIDITY_OUT),
                        length: 2,
                        then: Task::HumidityFlushed,
                    }
                } else {
                    Progress::Finished(Outcome::Done)
                }
            },
            Task::HumidityFlushed => Progress::Read {
                address,
                register: sequential(TEMP_OUT),
                length: 2,
                then: Task::TemperatureFlushed,
            },
            Task::CalibrationValue => Progress::Finished(Outcome::Done),
            Task::TemperatureValue => Progress::Read {
                address,
                register: sequential(HUMIDITY_OUT),
                length: 2,
                then: Task::HumidityValue(word(byte_at(response, 0), byte_at(response, 1)) as i16),
            },
            Task::HumidityValue(t_out) => Progress::Finished(
                self.reading(t_out, word(byte_at(response, 0), byte_at(response, 1)) as i16),
            ),
        }
    }

    /// The calibration that the sensor holds after the step: the one just
    /// read, where the step took in the calibration block, else the one it
    /// held before.
    pub open spec fn learned(self, task: Task, response: Seq<u8>) -> Option<Calibration> {
        if task is CalibrationValue {
            Some(Calibration::decode(response))
        } else {
            self.calibration()
        }
    }

    /// Defers the initialization of the sensor.
    fn initialize(&self) -> (completion: Completion<(), Work>)
        ensures
            completion == Completion::<(), Work>::Deferred(Work::Pending(Job::Initialize)),
    {
        Completion::defer(Work::Pending(Job::Initialize))
    }

    /// Defers the reading of the calibration.
    fn start(&self) -> (completion: Completion<(), Work>)
        ensures
            completion == Completion::<(), Work>::Deferred(Work::Pending(Job::Start)),
    {
        Completion::defer(Work::Pending(Job::Start))
    }

    /// Asks for the guard of the bus, or goes on waiting for it.
    ///
    /// Work that is pending joins the line of `bus`, the mutex that the
    /// sensor is bound to; a sensor that is bound to none has nothing to do
    /// and is finished. Work that waits asks whether its turn has come. In
    /// both cases the guard is handed over where the bus is free and nobody
    /// is first in line before the sensor; otherwise the work waits on.
    pub fn claim(&mut self, bus: &mut Mutex<I>, work: Work) -> (claim: Claim<D, I>)
        requires
            work is Pending ==> old(bus)@.issued < u64::MAX,
        ensures
            final(self).address() == old(self).address(),
            final(self).i2c() == old(self).i2c(),
            final(self).bus() == old(self).bus(),
            final(self).calibration() == old(self).calibration(),
            match work {
                Work::Pending(job) => if old(self).i2c() is None {
                    &&& claim matches Claim::Finished(Outcome::Done)
                    &&& *final(bus) == *old(bus)
                } else if old(bus)@.holder is None && old(bus)@.waiters.len() == 0 {
                    &&& claim matches Claim::Granted(guard, task)
                    &&& task == Task::Claimed(job)
                    &&& guard.ticket().number() == old(bus)@.issued
                    &&& old(bus).resource() == Some(guard.resource())
                    &&& final(bus)@ == old(bus)@.enqueue().grant()
                    &&& final(bus).resource() is None
                } else {
                    &&& claim matches Claim::Waiting(Work::Waiting(ticket, waiting))
                    &&& waiting == job
                    &&& ticket.number() == old(bus)@.issued
                    &&& final(bus)@ == old(bus)@.enqueue()
                    &&& final(bus).resource() == old(bus).resource()
                },
                Work::Waiting(ticket, job) => if old(bus)@.grantable(ticket.number()) {
                    &&& claim matches Claim::Granted(guard, task)
                    &&& task == Task::Claimed(job)
                    &&& guard.ticket() == ticket
                    &&& old(bus).resource() == Some(guard.resource())
                    &&& final(bus)@ == old(bus)@.grant()
                    &&& final(bus).resource() is None
                } else {
                    &&& claim matches Claim::Waiting(again)
                    &&& again == work
                    &&& *final(bus) == *old(bus)
                },
            },
    {
        match work {
            Work::Pending(job) => match self.i2c {
                None => Claim::Finished(Outcome::Done),
                Some(_) => match bus.lock() {
                    Completion::Immediate(guard) => Claim::Granted(guard, Task::Claimed(job)),
                    Completion::Deferred(ticket) => Claim::Waiting(Work::Waiting(ticket, job)),
                },
            },
            Work::Waiting(ticket, job) => match bus.acquire(ticket) {
                Completion::Immediate(guard) => Claim::Granted(guard, Task::Claimed(job)),
                Completion::Deferred(ticket) => Claim::Waiting(Work::Waiting(ticket, job)),
            },
        }
    }

    /// Takes one step of the work under the guard of the bus.
    ///
    /// `task` is the step that is due: the one that came with the guard at
    /// first, afterwards the one that the last answer named. `response`
    /// holds the bytes of the transfer that the last answer asked for, and
    /// is ignored where it asked for none.
    pub fn resume(&mut self, task: Task, response: &[u8]) -> (progress: Progress<D>)
        ensures
            progress == old(self).step(task, response@),
            final(self).calibration() == old(self).learned(task, response@),
            final(self).address() == old(self).address(),
            final(self).i2c() == old(self).i2c(),
            final(self).bus() == old(self).bus(),
    {
        let address = self.address;
        match task {
            Task::Claimed(Job::Initialize) => Progress::Read {
                address,
                register: CTRL_REG2,
                length: 1,
                then: Task::Ctrl2Value,
            },
            Task::Claimed(Job::Start) => Progress::Read {
                address,
                register: CALIBRATION | AUTO_INCREMENT,
                length: 16,
                then: Task::CalibrationValue,
            },
            Task::Claimed(Job::Acquire) => {
                if self.calibration.is_some() {
                    Progress::Read {
                        address,
                        register: TEMP_OUT | AUTO_INCREMENT,
                        length: 2,
                        then: Task::TemperatureValue,
                    }
                } else {
                    Progress::Finished(Outcome::Skipped(Diagnostic::NoCalibration))
                }
            },
            Task::Ctrl2Value => {
                let value: u8 = Ctrl2::from_byte(byte(response, 0)).boot().to_byte();
                Progress::Write { address, register: CTRL_REG2, value, then: Task::Ctrl2Stored }
            },
            Task::Ctrl2Stored => Progress::Read { address, register: CTRL_REG1, length: 1, then: Task::Ctrl1Value },
            Task::Ctrl1Value => {
                let value: u8 = Ctrl1::from_byte(byte(response, 0)).power_active().output_data_rate(
                    OutputDataRate::Hz1,
                ).block_data_update(BlockDataUpdate::MsbLsbReading).to_byte();
                Progress::Write { address, register: CTRL_REG1, value, then: Task::Ctrl1Stored }
            },
            Task::Ctrl1Stored => Progress::Read { address, register: CTRL_REG3, length: 1, then: Task::Ctrl3Value },
            Task::Ctrl3Value => {
                let value: u8 = Ctrl3::from_byte(byte(response, 0)).enable(true).to_byte();
                Progress::Write { address, register: CTRL_REG3, value, then: Task::Ctrl3Stored }
            },
            Task::Ctrl3Stored | Task::TemperatureFlushed => Progress::Read {
                address,
                register: STATUS_REG,
                length: 1,
                then: Task::StatusValue,
            },
            Task::StatusValue => {
                if Status::from_byte(byte(response, 0)).any_available() {
                    Progress::Read {
                        address,
                        register: HUMIDITY_OUT | AUTO_INCREMENT,
                        length: 2,
                        then: Task::HumidityFlushed,
                    }
                } else {
                    Progress::Finished(Outcome::Done)
                }
            },
            Task::HumidityFlushed => Progress::Read {
                address,
                register: TEMP_OUT | AUTO_INCREMENT,
                length: 2,
                then: Task::TemperatureFlushed,
            },
            Task::CalibrationValue => {
                self.calibration = Some(Calibration::from_block(response));
                Progress::Finished(Outcome::Done)
            },
            Task::TemperatureValue => {
                let t_out: i16 = decode_word(byte(response, 0), byte(response, 1));
                Progress::Read {
                    address,
                    register: HUMIDITY_OUT | AUTO_INCREMENT,
                    length: 2,
                    then: Task::HumidityValue(t_out),
                }
            },
            Task::HumidityValue(t_out) => {
                let h_out: i16 = decode_word(byte(response, 0), byte(response, 1));
                Progress::Finished(self.acquire(t_out, h_out))
            },
        }
    }

    /// Converts a pair of raw outputs into what is to be published.
    fn acquire(&self, t_out: i16, h_out: i16) -> (outcome: Outcome<D>)
        ensures
            outcome == self.reading(t_out, h_out),
    {
        match self.calibration {
            None => Outcome::Skipped(Diagnostic::NoCalibration),
            Some(calibration) => {
                let temperature = calibration.calibrated_temperature(t_out);
                let relative_humidity = calibration.calibrated_humidity(h_out);
                match (temperature, relative_humidity) {
                    (Some(temperature), Some(relative_humidity)) => match self.bus {
                        Some(bus) => Outcome::Publish(bus, SensorAcquisition { temperature, relative_humidity }),
                        None => Outcome::Skipped(Diagnostic::NotMounted),
                    },
                    _ => Outcome::Skipped(Diagnostic::DegenerateCalibration),
                }
            },
        }
    }
}

impl<D: EventConsumer<SensorAcquisition>, I> Default for Sensor<D, I> {
    fn default() -> (sensor: Self)
        ensures
            sensor.address() == I2cAddress(ADDR),
            sensor.i2c() is None,
            sensor.calibration() is None,
            sensor.bus() is None,
    {
        Sensor::new()
    }
}

impl<D: EventConsumer<SensorAcquisition>, I> Actor for Sensor<D, I> {
    /// The event bus on which readings are published.
    type Configuration = EventBus<D>;

    type Task = Work;

    /// Keeps the event bus. Nothing is set up yet: the sensor is touched
    /// first when the lifecycle begins.
    fn on_mount(&mut self, configuration: EventBus<D>, address: Address<Self>) -> (completion: Completion<
        (),
        Work,
    >)
        ensures
            completion == Completion::<(), Work>::Immediate(()),
            final(self).bus() == Some(configuration),
            final(self).address() == old(self).address(),
            final(self).i2c() == old(self).i2c(),
            final(self).calibration() == old(self).calibration(),
    {
        self.bus = Some(configuration);
        Completion::immediate(())
    }
}

impl<D: EventConsumer<SensorAcquisition>, I> Bind<Mutex<I>> for Sensor<D, I> {
    /// Keeps the address of the mutex that guards the I2C bus.
    fn on_bind(&mut self, address: Address<Mutex<I>>)
        ensures
            final(self).i2c() == Some(address),
            final(self).address() == old(self).address(),
            final(self).bus() == old(self).bus(),
            final(self).calibration() == old(self).calibration(),
    {
        self.i2c = Some(address);
    }
}

/// The completion with which the sensor answers a lifecycle event.
pub open spec fn lifecycle_completion(event: Lifecycle) -> Completion<(), Work> {
    match event {
        Lifecycle::Initialize => Completion::Deferred(Work::Pending(Job::Initialize)),
        Lifecycle::Start => Completion::Deferred(Work::Pending(Job::Start)),
        Lifecycle::Stop | Lifecycle::Sleep | Lifecycle::Hibernate => Completion::Immediate(()),
    }
}

impl<D: EventConsumer<SensorAcquisition>, I> NotificationHandler<Lifecycle> for Sensor<D, I> {
    type Reply = ();

    type Task = Work;

    /// Defers the work of `Initialize` and of `Start`; the other events
    /// need nothing from the sensor.
    fn on_notification(&mut self, event: Lifecycle) -> (completion: Completion<(), Work>)
        ensures
            completion == lifecycle_completion(event),
            *final(self) == *old(self),
    {
        match event {
            Lifecycle::Initialize => self.initialize(),
            Lifecycle::Start => self.start(),
            Lifecycle::Stop => Completion::immediate(()),
            Lifecycle::Sleep => Completion::immediate(()),
            Lifecycle::Hibernate => Completion::immediate(()),
        }
    }
}

impl<D: EventConsumer<SensorAcquisition>, I> NotificationHandler<DataReady> for Sensor<D, I> {
    type Reply = ();

    type Task = Work;

    /// Defers the reading of the outputs that the signal announces.
    fn on_notification(&mut self, message: DataReady) -> (completion: Completion<(), Work>)
        ensures
            completion == Completion::<(), Work>::Deferred(Work::Pending(Job::Acquire)),
            *final(self) == *old(self),
    {
        Completion::defer(Work::Pending(Job::Acquire))
    }
}

impl<D: EventConsumer<SensorAcquisition>, I> Address<Sensor<D, I>> {
    /// Tells the sensor that a reading is ready: sends it [`DataReady`].
    ///
    /// This only puts the signal into the sensor's inbox, so it may be
    /// called from the handler of the interrupt that the sensor raises.
    pub fn signal_data_ready<M: From<DataReady>, R, T>(&self, supervisor: &mut Supervisor<M, R, T>) -> (accepted:
        bool)
        ensures
            accepted == old(supervisor)@.mounted(self.index() as int),
            accepted ==> exists|message: M|
                {
                    &&& call_ensures(M::from, (DataReady,), message)
                    &&& final(supervisor)@ == old(supervisor)@.post(
                        self.index() as int,
                        Envelope::Notification(message),
                    )
                },
            accepted && M::obeys_from_spec() ==> final(supervisor)@ == old(supervisor)@.post(
                self.index() as int,
                Envelope::Notification(M::from_spec(DataReady)),
            ),
            !accepted ==> final(supervisor)@ == old(supervisor)@,
            final(supervisor)@.wf(),
    {
        self.notify(supervisor, DataReady)
    }
}

} // verus!
