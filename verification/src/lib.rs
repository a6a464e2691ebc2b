//! Core of a local datagram relay service: a mutex-guarded endpoint shared by
//! concurrent readers and writers, a jointly locked telemetry store of link
//! health counters, and the typed query surface that exposes both.

pub mod comms;
pub mod errors;
pub mod mission;
pub mod model;
pub mod relay;
pub mod schema;
pub mod store;
pub mod telemetry;
