//! A harness for starting ephemeral auxiliary services in integration tests.
//!
//! The library models the lifecycle machinery that such a harness needs:
//! a one-shot cooperative shutdown signal ([`latch::Latch`]), a driver
//! protocol for servers running as background tasks ([`server`]), and a
//! supervisor for out-of-process services that polls for readiness and
//! escalates termination from graceful to forced ([`example`],
//! [`termination`]).
//!
//! All decision logic lives here and is verified; the surrounding runtime
//! (task spawning, sockets, process control) drives these state machines
//! and performs the actions they return.

pub mod address;
pub mod example;
pub mod latch;
pub mod server;
pub mod termination;
