//! The telemetry record itself: four link counters and an ordered error log.
//!
//! The record is passive: counter increments belong to the protocol layer that
//! drives the link, so every mutation here is a documented injection point with
//! an exact contract, and every read is non-destructive.

use vstd::prelude::*;

verus! {

/// Link-health telemetry: success and failure counters for each direction,
/// and an append-only log of error descriptions in insertion order.
pub struct CommsTelemetry {
    pub packets_up: i32,
    pub packets_down: i32,
    pub failed_packets_up: i32,
    pub failed_packets_down: i32,
    pub errors: Vec<String>,
}

impl CommsTelemetry {
    /// Counters never go negative for the life of the process.
    pub open spec fn wf(self) -> bool {
        &&& self.packets_up >= 0
        &&& self.packets_down >= 0
        &&& self.failed_packets_up >= 0
        &&& self.failed_packets_down >= 0
    }

    /// The state the record is created in: everything zero, no errors logged.
    pub open spec fn initial(self) -> bool {
        &&& self.packets_up == 0
        &&& self.packets_down == 0
        &&& self.failed_packets_up == 0
        &&& self.failed_packets_down == 0
        &&& self.errors@ == Seq::<String>::empty()
    }

    /// One processing step of the protocol layer: each counter either stays or
    /// advances by one, and the error log only grows at its end. Every mutation
    /// of this record is such a step.
    pub open spec fn step(pre: CommsTelemetry, post: CommsTelemetry) -> bool {
        &&& pre.packets_up <= post.packets_up <= pre.packets_up + 1
        &&& pre.packets_down <= post.packets_down <= pre.packets_down + 1
        &&& pre.failed_packets_up <= post.failed_packets_up <= pre.failed_packets_up + 1
        &&& pre.failed_packets_down <= post.failed_packets_down <= pre.failed_packets_down + 1
        &&& pre.errors@.is_prefix_of(post.errors@)
    }

    /// Nothing in `post` is behind `pre`: counters have not decreased and the
    /// old error log is still a prefix of the new one.
    pub open spec fn no_decrease(pre: CommsTelemetry, post: CommsTelemetry) -> bool {
        &&& pre.packets_up <= post.packets_up
        &&& pre.packets_down <= post.packets_down
        &&& pre.failed_packets_up <= post.failed_packets_up
        &&& pre.failed_packets_down <= post.failed_packets_down
        &&& pre.errors@.is_prefix_of(post.errors@)
    }

    pub fn new() -> (t: CommsTelemetry)
        ensures
            t.initial(),
            t.wf(),
    {
        CommsTelemetry {
            packets_up: 0,
            packets_down: 0,
            failed_packets_up: 0,
            failed_packets_down: 0,
            errors: Vec::new(),
        }
    }

    /// Record one successfully uplinked packet.
    pub fn count_packet_up(&mut self)
        requires
            old(self).packets_up < i32::MAX,
        ensures
            final(self).packets_up == old(self).packets_up + 1,
            final(self).packets_down == old(self).packets_down,
            final(self).failed_packets_up == old(self).failed_packets_up,
            final(self).failed_packets_down == old(self).failed_packets_down,
            final(self).errors@ == old(self).errors@,
            Self::step(*old(self), *final(self)),
    {
        self.packets_up = self.packets_up + 1;
        proof {
            assert(self.errors@.is_prefix_of(self.errors@));
        }
    }

    /// Record one successfully downlinked packet.
    pub fn count_packet_down(&mut self)
        requires
            old(self).packets_down < i32::MAX,
        ensures
            final(self).packets_down == old(self).packets_down + 1,
            final(self).packets_up == old(self).packets_up,
            final(self).failed_packets_up == old(self).failed_packets_up,
            final(self).failed_packets_down == old(self).failed_packets_down,
            final(self).errors@ == old(self).errors@,
            Self::step(*old(self), *final(self)),
    {
        self.packets_down = self.packets_down + 1;
        proof {
            assert(self.errors@.is_prefix_of(self.errors@));
        }
    }

    /// Record one failed uplink.
    pub fn count_failed_packet_up(&mut self)
        requires
            old(self).failed_packets_up < i32::MAX,
        ensures
            final(self).failed_packets_up == old(self).failed_packets_up + 1,
            final(self).packets_up == old(self).packets_up,
            final(self).packets_down == old(self).packets_down,
            final(self).failed_packets_down == old(self).failed_packets_down,
            final(self).errors@ == old(self).errors@,
            Self::step(*old(self), *final(self)),
    {
        self.failed_packets_up = self.failed_packets_up + 1;
        proof {
            assert(self.errors@.is_prefix_of(self.errors@));
        }
    }

    /// Record one failed downlink.
    pub fn count_failed_packet_down(&mut self)
        requires
            old(self).failed_packets_down < i32::MAX,
        ensures
            final(self).failed_packets_down == old(self).failed_packets_down + 1,
            final(self).packets_up == old(self).packets_up,
            final(self).packets_down == old(self).packets_down,
            final(self).failed_packets_up == old(self).failed_packets_up,
            final(self).errors@ == old(self).errors@,
            Self::step(*old(self), *final(self)),
    {
        self.failed_packets_down = self.failed_packets_down + 1;
        proof {
            assert(self.errors@.is_prefix_of(self.errors@));
        }
    }

    /// Append one error description; earlier entries keep their places, so the
    /// log preserves insertion order.
    pub fn log_error(&mut self, error: String)
        ensures
            final(self).errors@ == old(self).errors@.push(error),
            final(self).packets_up == old(self).packets_up,
            final(self).packets_down == old(self).packets_down,
            final(self).failed_packets_up == old(self).failed_packets_up,
            final(self).failed_packets_down == old(self).failed_packets_down,
            Self::step(*old(self), *final(self)),
    {
        self.errors.push(error);
        proof {
            assert(old(self).errors@.is_prefix_of(self.errors@)) by {
                assert(self.errors@.subrange(0, old(self).errors@.len() as int)
                    =~= old(self).errors@);
            }
        }
    }

    /// A snapshot copy of the error log; later mutations are not reflected in
    /// the returned sequence.
    pub fn errors_snapshot(&self) -> (r: Vec<String>)
        ensures
            r@ == self.errors@,
    {
        let r = self.errors.clone();
        proof {
            assert(r@ =~= self.errors@);
        }
        r
    }
}

/// Monotonicity along any chain of protocol steps: wherever a later state is
/// reached from an earlier one through steps, no counter has decreased and the
/// earlier error log is still a prefix of the later one. This is what makes
/// two successive reads from one thread never appear to run backwards.
pub proof fn lemma_chain_no_decrease(trace: Seq<CommsTelemetry>, i: int, j: int)
    requires
        0 <= i <= j < trace.len(),
        forall|k: int|
            0 <= k < trace.len() - 1 ==> #[trigger] CommsTelemetry::step(trace[k], trace[k + 1]),
    ensures
        CommsTelemetry::no_decrease(trace[i], trace[j]),
    decreases j - i,
{
    if i == j {
        assert(trace[i].errors@.is_prefix_of(trace[j].errors@));
    } else {
        lemma_chain_no_decrease(trace, i, j - 1);
        let k = j - 1;
        assert(CommsTelemetry::step(trace[k], trace[k + 1]));
        assert(trace[i].errors@.is_prefix_of(trace[j].errors@)) by {
            assert(trace[i].errors@.is_prefix_of(trace[j - 1].errors@));
            assert(trace[j - 1].errors@.is_prefix_of(trace[j].errors@));
            assert(trace[j].errors@.subrange(0, trace[i].errors@.len() as int)
                =~= trace[i].errors@);
        }
    }
}

/// The error log reads back exactly as it was written: appending the
/// messages `msgs`, in order, to a record that started with an empty log
/// leaves the log equal to `msgs` — nothing reordered, dropped or invented.
/// `trace[k]` is the record before the `k`-th append.
pub proof fn lemma_log_reads_back_in_order(trace: Seq<CommsTelemetry>, msgs: Seq<String>)
    requires
        trace.len() == msgs.len() + 1,
        trace[0].initial(),
        forall|k: int|
            0 <= k < msgs.len() ==> #[trigger] trace[k + 1].errors@ == trace[k].errors@.push(
                msgs[k],
            ),
    ensures
        trace[msgs.len() as int].errors@ == msgs,
    decreases msgs.len(),
{
    if msgs.len() == 0 {
        assert(trace[0].errors@ =~= msgs);
    } else {
        lemma_log_reads_back_in_order(trace.take(trace.len() - 1), msgs.take(msgs.len() - 1));
        let k = msgs.len() - 1;
        assert(trace[k + 1].errors@ == trace[k as int].errors@.push(msgs[k as int]));
        assert(trace[k as int].errors@ == msgs.take(k as int));
        assert(trace[msgs.len() as int].errors@ =~= msgs);
    }
}

/// Boundedness along any chain of protocol steps out of the initial record:
/// after at most `i` steps, every counter lies within `[0, i]`. In particular a
/// counter read taken after `n` increments can never show a value outside
/// `[0, n]`.
pub proof fn lemma_chain_counter_bounds(trace: Seq<CommsTelemetry>, i: int)
    requires
        0 <= i < trace.len(),
        trace[0].initial(),
        forall|k: int|
            0 <= k < trace.len() - 1 ==> #[trigger] CommsTelemetry::step(trace[k], trace[k + 1]),
    ensures
        0 <= trace[i].packets_up <= i,
        0 <= trace[i].packets_down <= i,
        0 <= trace[i].failed_packets_up <= i,
        0 <= trace[i].failed_packets_down <= i,
    decreases i,
{
    if i > 0 {
        lemma_chain_counter_bounds(trace, i - 1);
        let k = i - 1;
        assert(CommsTelemetry::step(trace[k], trace[k + 1]));
    }
}

} // verus!
