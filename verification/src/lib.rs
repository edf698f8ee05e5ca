//! A cooperative, allocation-conscious actor runtime for single-core devices.
//!
//! The core is an actor/mailbox/executor/completion subsystem: producers push
//! messages into bounded per-actor mailboxes and raise a readiness counter;
//! a cooperative executor sweeps the registered actors, driving one message
//! at a time per actor to completion or suspension; single-slot completion
//! cells hand results from producers (including interrupt handlers) back to
//! exactly one waiting consumer.

pub mod actor;
pub mod completion;
pub mod config;
pub mod executor;
pub mod lora;
pub mod sink;
pub mod socket;
pub mod socket_pool;
pub mod tcp;
pub mod uart;
