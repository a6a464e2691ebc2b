//! The telemetry store: the shared record behind one lock.
//!
//! All four counters and the error log sit under a single lock, so every
//! accessor call is atomic with respect to the others: a reader never sees a
//! torn state, and a jointly locked multi-field snapshot could be added
//! without changing the locking. The lock is vstd's verified reader-writer
//! lock: reads share it, mutations take it exclusively, and its invariant —
//! every value it ever holds is well-formed — is what the read contracts
//! stand on. What a read returns is the state the lock held at that instant;
//! with other threads mutating concurrently, no stronger value can be
//! promised, and the exact arithmetic of each mutation lives on
//! [`CommsTelemetry`] itself.

use crate::telemetry::CommsTelemetry;
use vstd::prelude::*;
use vstd::rwlock::{RwLock, RwLockPredicate};

verus! {

/// What may rest in the store's lock: only well-formed telemetry, so counters
/// never go negative for the life of the process.
pub struct TelemetryInv {}

impl RwLockPredicate<CommsTelemetry> for TelemetryInv {
    open spec fn inv(self, t: CommsTelemetry) -> bool {
        t.wf()
    }
}

/// A mutex-guarded telemetry record, created empty at service start, mutated
/// by the protocol layer as packets are processed, and read non-destructively
/// any number of times.
pub struct TelemetryStore {
    lock: RwLock<CommsTelemetry, TelemetryInv>,
}

impl TelemetryStore {
    /// An empty store: every counter zero, no errors logged.
    pub fn new() -> (s: TelemetryStore) {
        TelemetryStore { lock: RwLock::new(CommsTelemetry::new(), Ghost(TelemetryInv {})) }
    }

    /// The current count of successfully uplinked packets.
    pub fn packets_up(&self) -> (r: i32)
        ensures
            r >= 0,
    {
        let handle = self.lock.acquire_read();
        let r = handle.borrow().packets_up;
        handle.release_read();
        r
    }

    /// The current count of successfully downlinked packets.
    pub fn packets_down(&self) -> (r: i32)
        ensures
            r >= 0,
    {
        let handle = self.lock.acquire_read();
        let r = handle.borrow().packets_down;
        handle.release_read();
        r
    }

    /// The current count of failed uplinks.
    pub fn failed_packets_up(&self) -> (r: i32)
        ensures
            r >= 0,
    {
        let handle = self.lock.acquire_read();
        let r = handle.borrow().failed_packets_up;
        handle.release_read();
        r
    }

    /// The current count of failed downlinks.
    pub fn failed_packets_down(&self) -> (r: i32)
        ensures
            r >= 0,
    {
        let handle = self.lock.acquire_read();
        let r = handle.borrow().failed_packets_down;
        handle.release_read();
        r
    }

    /// A snapshot copy of the error log, in insertion order; mutations after
    /// this call are not reflected in the returned sequence.
    pub fn errors(&self) -> (r: Vec<String>) {
        let handle = self.lock.acquire_read();
        let r = handle.borrow().errors_snapshot();
        handle.release_read();
        r
    }

    /// A jointly locked snapshot of the whole record: all four counters and
    /// the error log copied under one acquisition, so the fields are
    /// consistent with each other — no counter update appears interleaved
    /// with a log append as two versions of the same event. This is the
    /// stronger of the two locking choices, taken by design.
    pub fn snapshot(&self) -> (r: CommsTelemetry)
        ensures
            r.wf(),
    {
        let handle = self.lock.acquire_read();
        let t = handle.borrow();
        let r = CommsTelemetry {
            packets_up: t.packets_up,
            packets_down: t.packets_down,
            failed_packets_up: t.failed_packets_up,
            failed_packets_down: t.failed_packets_down,
            errors: t.errors_snapshot(),
        };
        handle.release_read();
        r
    }

    /// Injection point of the protocol layer: count one successful uplink.
    /// At the counter's ceiling the count is left where it is, so the counter
    /// stays monotone instead of wrapping.
    pub fn count_packet_up(&self) {
        let (mut t, handle) = self.lock.acquire_write();
        if t.packets_up < i32::MAX {
            t.count_packet_up();
        }
        handle.release_write(t);
    }

    /// Injection point of the protocol layer: count one successful downlink.
    pub fn count_packet_down(&self) {
        let (mut t, handle) = self.lock.acquire_write();
        if t.packets_down < i32::MAX {
            t.count_packet_down();
        }
        handle.release_write(t);
    }

    /// Injection point of the protocol layer: count one failed uplink.
    pub fn count_failed_packet_up(&self) {
        let (mut t, handle) = self.lock.acquire_write();
        if t.failed_packets_up < i32::MAX {
            t.count_failed_packet_up();
        }
        handle.release_write(t);
    }

    /// Injection point of the protocol layer: count one failed downlink.
    pub fn count_failed_packet_down(&self) {
        let (mut t, handle) = self.lock.acquire_write();
        if t.failed_packets_down < i32::MAX {
            t.count_failed_packet_down();
        }
        handle.release_write(t);
    }

    /// Injection point of the protocol layer: append one error description to
    /// the log; earlier entries keep their places.
    pub fn log_error(&self, error: String) {
        let (mut t, handle) = self.lock.acquire_write();
        t.log_error(error);
        handle.release_write(t);
    }
}

} // verus!
