//! Background synchronization of a node's advertised slot-availability state.
//!
//! The crate holds the decision and data logic of a cluster-slots service:
//! coalescing buffered slot-update batches into one sorted advertisement,
//! accumulating per-iteration timing, and the per-iteration control decisions
//! of the timed event loop. Thread spawning and the calls into the ledger
//! store, fork-state provider and gossip announcer stay with the embedding
//! program.

use vstd::prelude::*;

mod channel;
mod service;
mod slots;
mod timing;

pub use channel::SlotsRecv;
pub use service::IterationStep;
pub use service::SLOTS_UPDATE_TIMEOUT_MS;
pub use service::StopReason;
pub use service::plan_wait_outcome;
pub use service::process_cluster_slots_updates;
pub use service::startup_slot_set;
pub use service::wait_for_slots_update;
pub use slots::Slot;
pub use slots::batches_multiset;
pub use slots::lemma_no_slot_lost;
pub use slots::lemma_sorted_slots_unique;
pub use slots::sort_slots;
pub use slots::sorted_slots;
pub use timing::ClusterSlotsServiceTiming;
pub use timing::METRICS_FLUSH_INTERVAL_SECS;
pub use timing::should_flush_metrics;

verus! {

/// The inbound channel's consumer side: slot-update batches from the local
/// replay stage, many producers, one consumer.
pub type ClusterSlotsUpdateReceiver = crossbeam_channel::Receiver<Vec<Slot>>;

} // verus!
