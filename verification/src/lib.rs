//! Lifecycle and event dispatch of a node's client service.
//!
//! The client service owns the long-lived parts of a node: the I/O runtime,
//! the persistent store, the state processor, the snapshot synchronizer and
//! the private-message processor. This crate holds what the service decides:
//!
//! - [`startup`]: in which order the parts are built, what a failure on the
//!   way means, and how the parts are taken down again;
//! - [`service`]: the started service, its accessors and its shutdown;
//! - [`ownership`]: who holds a share of which part, and when a part is
//!   released;
//! - [`handler`]: what a timer expiry or an inbound message asks of which
//!   subsystem, and what becomes of a failure;
//! - [`timer`]: the timers that the dispatcher registers.
//!
//! What the parts themselves do is not its business. Calls into the
//! subsystems are handed out as values for the embedding program to make;
//! only the registration of the timers is made from here, through
//! [`runtime`].

pub mod config;
pub mod handler;
pub mod message;
pub mod ownership;
pub mod runtime;
pub mod service;
pub mod startup;
pub mod timer;
