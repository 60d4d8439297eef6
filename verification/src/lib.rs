//! A MySQL connectivity probe: a retry/ping state machine under a bounded
//! or unbounded retry policy, an attempt classifier, and a replication
//! health check over the rows of one diagnostic query.
//!
//! The probe itself is pure logic: the external connector, the waiting, and
//! the command surface are collaborators, spoken to only through plain
//! values at this crate's boundary.

pub mod interval;
pub mod outcome;
pub mod pinger;
pub mod replication;
pub mod text;
