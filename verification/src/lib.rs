//! A cooperative actor runtime for small devices without an operating
//! system.
//!
//! Actors are mounted once and live as long as the device. They are reached
//! only through an [`address::Address`], exchange messages through FIFO
//! inboxes kept by the [`supervisor::Supervisor`], share peripherals through
//! the queueing [`synchronization::Mutex`], and follow the system-wide
//! [`device::Lifecycle`]. A handler answers with a [`handler::Completion`]:
//! either at once, or with a task that is resumed on later ticks.
//!
//! The runtime keeps state and decides; it never waits. A
//! [`device::DeviceContext`] owns the device and its supervisor, mounts the
//! device once, and is then ticked over and over by whoever runs the
//! device; interrupts and outside events are handed to it as they come.
//! What the supervisor does to the scheduling state is stated over a
//! mathematical model of that state, the [`schedule::Schedule`], and what
//! always holds of it is proved there.

pub mod actor;
pub mod address;
pub mod bind;
pub mod bus;
pub mod device;
pub mod driver;
pub mod hal;
pub mod handler;
pub mod schedule;
pub mod supervisor;
pub mod synchronization;
