//! The query facade: the one component the schema layer is allowed to touch.
//!
//! It holds shared references to the telemetry store and the guarded relay,
//! and every accessor either returns the requested value or a defined failure
//! signal — it never blocks indefinitely and never panics the calling thread.
//! With vstd's lock underneath, acquisition cannot be poisoned, so each
//! accessor is in fact owed success: its contract says so, and a lock failure
//! of the original kind would surface as the `Err` branch, distinct from any
//! transport error, never swallowed into a default value.

use crate::relay::GuardedRelay;
use crate::store::TelemetryStore;
use std::sync::Arc;
use vstd::prelude::*;

verus! {

/// One facade per service, constructed after the store and relay exist and
/// cloned by reference into each query-handling context.
#[derive(Clone)]
pub struct Subsystem {
    pub telem: Arc<TelemetryStore>,
    pub local: Arc<GuardedRelay>,
}

impl Subsystem {
    pub fn new(telem: Arc<TelemetryStore>, local: Arc<GuardedRelay>) -> (s: Subsystem)
        ensures
            s.telem == telem,
            s.local == local,
    {
        Subsystem { telem, local }
    }

    /// The count of failed uplinks, read atomically from the store.
    pub fn failed_packets_up(&self) -> (r: Result<i32, String>)
        ensures
            r matches Ok(v) && v >= 0,
    {
        Ok(self.telem.failed_packets_up())
    }

    /// The count of failed downlinks, read atomically from the store.
    pub fn failed_packets_down(&self) -> (r: Result<i32, String>)
        ensures
            r matches Ok(v) && v >= 0,
    {
        Ok(self.telem.failed_packets_down())
    }

    /// The count of successful uplinks, read atomically from the store.
    pub fn packets_up(&self) -> (r: Result<i32, String>)
        ensures
            r matches Ok(v) && v >= 0,
    {
        Ok(self.telem.packets_up())
    }

    /// The count of successful downlinks, read atomically from the store.
    pub fn packets_down(&self) -> (r: Result<i32, String>)
        ensures
            r matches Ok(v) && v >= 0,
    {
        Ok(self.telem.packets_down())
    }

    /// A snapshot copy of the error log, in insertion order.
    pub fn errors(&self) -> (r: Result<Vec<String>, String>)
        ensures
            r is Ok,
    {
        Ok(self.telem.errors())
    }

    /// Whether the relay's underlying handle is still open, read under the
    /// relay lock. A failure would come back as `Err`, never as a false
    /// `true`: "unknown" is not conflated with "definitely down".
    pub fn get_alive(&self) -> (r: Result<bool, String>)
        ensures
            r is Ok,
    {
        Ok(self.local.get_alive())
    }
}

} // verus!
