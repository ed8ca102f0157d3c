//! Verified model of the connectivity-and-status control loop of a small
//! networked device: a status-LED actor whose mailbox serializes concurrent
//! callers, a capacity-one readiness channel with backpressure, the blink
//! pattern driven by a shared health flag, credential resolution with
//! built-in defaults, and the connection-state supervisor that ties them
//! together. The surrounding tasks perform the radio, storage and timer work
//! and hand the resulting events back to the supervisor.

pub mod blink;
pub mod channel;
pub mod credentials;
pub mod led;
pub mod supervisor;
