//! Accumulated timing of the two measured phases of a service iteration.

use vstd::prelude::*;

verus! {

/// Wall-clock interval, in seconds, after which the accumulated timing is
/// flushed as one metrics observation.
pub const METRICS_FLUSH_INTERVAL_SECS: u64 = 2;

/// Microsecond totals for the two measured phases of the service loop:
/// recomputing and advertising the lowest retained slot, and coalescing and
/// advertising slot updates. Both counters grow until flushed, then restart
/// from zero.
#[derive(Debug)]
pub struct ClusterSlotsServiceTiming {
    pub lowest_slot_elapsed: u64,
    pub process_cluster_slots_updates_elapsed: u64,
}

impl ClusterSlotsServiceTiming {
    /// A fresh accumulator with both counters at zero.
    pub fn new() -> (r: Self)
        ensures
            r.lowest_slot_elapsed == 0,
            r.process_cluster_slots_updates_elapsed == 0,
    {
        ClusterSlotsServiceTiming {
            lowest_slot_elapsed: 0,
            process_cluster_slots_updates_elapsed: 0,
        }
    }

    /// Folds one iteration's measured durations into the running totals.
    pub fn update(
        &mut self,
        lowest_slot_elapsed: u64,
        process_cluster_slots_updates_elapsed: u64,
    )
        requires
            old(self).lowest_slot_elapsed + lowest_slot_elapsed <= u64::MAX,
            old(self).process_cluster_slots_updates_elapsed
                + process_cluster_slots_updates_elapsed <= u64::MAX,
        ensures
            final(self).lowest_slot_elapsed
                == old(self).lowest_slot_elapsed + lowest_slot_elapsed,
            final(self).process_cluster_slots_updates_elapsed
                == old(self).process_cluster_slots_updates_elapsed
                    + process_cluster_slots_updates_elapsed,
    {
        self.lowest_slot_elapsed += lowest_slot_elapsed;
        self.process_cluster_slots_updates_elapsed += process_cluster_slots_updates_elapsed;
    }

    /// Takes the accumulated totals for one metrics observation and resets
    /// both counters to zero.
    pub fn flush(&mut self) -> (r: (u64, u64))
        ensures
            r.0 == old(self).lowest_slot_elapsed,
            r.1 == old(self).process_cluster_slots_updates_elapsed,
            final(self).lowest_slot_elapsed == 0,
            final(self).process_cluster_slots_updates_elapsed == 0,
    {
        let r = (self.lowest_slot_elapsed, self.process_cluster_slots_updates_elapsed);
        self.lowest_slot_elapsed = 0;
        self.process_cluster_slots_updates_elapsed = 0;
        r
    }
}

impl Default for ClusterSlotsServiceTiming {
    fn default() -> (r: Self)
        ensures
            r.lowest_slot_elapsed == 0,
            r.process_cluster_slots_updates_elapsed == 0,
    {
        ClusterSlotsServiceTiming::new()
    }
}

/// Whether the accumulated timing is due to be flushed: true exactly when
/// strictly more than the flush interval has elapsed, in whole seconds, since
/// the last flush (or since the loop started).
pub fn should_flush_metrics(elapsed_secs: u64) -> (r: bool)
    ensures
        r <==> elapsed_secs > METRICS_FLUSH_INTERVAL_SECS,
{
    elapsed_secs > METRICS_FLUSH_INTERVAL_SECS
}

} // verus!
