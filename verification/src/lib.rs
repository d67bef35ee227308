//! Core of an outbound-send driver for a thread-per-core runtime.
//!
//! Operation states bind a buffer and a descriptor handle together for the
//! lifetime of one send, expose the capability surface that lets a reactor
//! drive them either through a completion-queue backend or through a
//! readiness-polling backend, and a registry lets any thread look up the
//! wake capabilities of another driver by its numeric identity.

pub mod addr;
pub mod buf;
pub mod fd;
pub mod flags;
pub mod op;
pub mod registry;
pub mod uring;
