//! The typed query and mutation surface the schema layer translates into.
//!
//! Each operation is a thin call into the facade with zero business logic of
//! its own: it maps the facade's result or error straight into the response,
//! and an error in one field never brings the whole request down — unrelated
//! fields of the same request are unaffected.

use crate::model::Subsystem;
use vstd::prelude::*;

verus! {

/// The query operations: the liveness probe and the telemetry reads.
pub struct QueryRoot;

impl QueryRoot {
    /// Constant-result liveness probe. It takes no reference to the store or
    /// the relay, so it depends on neither of their locks: it proves the
    /// query-handling path itself is alive.
    pub fn ping(&self) -> (r: Result<String, String>)
        ensures
            r matches Ok(s) && s@ == "pong"@,
    {
        Ok("pong".to_owned())
    }

    /// Number of bad uplink packets.
    pub fn failed_packets_up(&self, subsystem: &Subsystem) -> (r: Result<i32, String>)
        ensures
            r matches Ok(v) && v >= 0,
    {
        subsystem.failed_packets_up()
    }

    /// Number of bad downlink packets.
    pub fn failed_packets_down(&self, subsystem: &Subsystem) -> (r: Result<i32, String>)
        ensures
            r matches Ok(v) && v >= 0,
    {
        subsystem.failed_packets_down()
    }

    /// Number of packets successfully uplinked.
    pub fn packets_up(&self, subsystem: &Subsystem) -> (r: Result<i32, String>)
        ensures
            r matches Ok(v) && v >= 0,
    {
        subsystem.packets_up()
    }

    /// Number of packets successfully downlinked.
    pub fn packets_down(&self, subsystem: &Subsystem) -> (r: Result<i32, String>)
        ensures
            r matches Ok(v) && v >= 0,
    {
        subsystem.packets_down()
    }

    /// The errors that have occurred, oldest first.
    pub fn errors(&self, subsystem: &Subsystem) -> (r: Result<Vec<String>, String>)
        ensures
            r is Ok,
    {
        subsystem.errors()
    }
}

/// The mutation operations: only the no-op liveness report.
pub struct MutationRoot;

impl MutationRoot {
    /// Execute a trivial command against the system: report whether the
    /// underlying handle is alive. A failure surfaces as the error branch of
    /// the response, never as a false `true`.
    pub fn noop(&self, subsystem: &Subsystem) -> (r: Result<bool, String>)
        ensures
            r is Ok,
    {
        subsystem.get_alive()
    }
}

} // verus!
