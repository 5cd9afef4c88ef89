//! A population of worker actors climbs a fixed sequence of stages,
//! coordinated by a single arbiter that decides pass/fail verdicts and
//! aggregates results. The verified core is the coordination protocol:
//! the per-worker lifecycle state machine, the arbiter's tables and
//! event-loop step (one inbound message at a time, one reply per message,
//! routed by participant id), the shutdown handshake, and the statistics
//! computed at shutdown. Channels and randomness come from outside crates
//! behind trusted declarations; threads, the floating-point policy
//! formulas, and I/O live with the caller.

pub mod arbiter;
pub mod channels;
pub mod messages;
pub mod stats;
pub mod worker;
