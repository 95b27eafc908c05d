//! Decision core of the timed event loop.
//!
//! Each iteration of the service loop waits a bounded time for the next
//! slot-update batch, decides whether to keep running, and coalesces every
//! batch buffered at that moment into one sorted slot-set advertisement.
//! The embedding program runs the loop itself and performs the calls into
//! the ledger store, fork-state provider and gossip announcer.

use crate::channel::SlotsRecv;
use crate::channel::queued_batches;
use crate::channel::recv_slots_timeout;
use crate::channel::try_recv_slots;
use crate::slots::Slot;
use crate::slots::batches_multiset;
use crate::slots::lemma_batches_multiset_push;
use crate::slots::sort_slots;
use crate::slots::sorted_slots;
use crossbeam_channel::Receiver;
use vstd::prelude::*;

verus! {

/// How long one iteration waits for the next inbound batch, in milliseconds.
pub const SLOTS_UPDATE_TIMEOUT_MS: u64 = 200;

/// Why the service loop stopped.
#[derive(Debug, Clone, Copy, PartialEq, Eq)]
pub enum StopReason {
    /// The cooperative shutdown flag was observed set.
    Shutdown,
    /// The inbound channel is empty and has no producers left.
    Disconnected,
}

/// What one iteration of the loop does next, decided at the loop head.
#[derive(Debug, PartialEq, Eq)]
pub enum IterationStep {
    /// Terminate the loop.
    Stop(StopReason),
    /// Keep running; the payload is the seed batch to coalesce this
    /// iteration, or nothing when the wait timed out.
    Proceed(Option<Vec<Slot>>),
}

/// The loop-head decision as a function of the observed shutdown flag and
/// the outcome of the bounded wait: shutdown stops the loop before anything
/// else, a disconnected channel stops it in orderly fashion, and otherwise
/// the iteration proceeds, with a seed batch exactly when one arrived.
pub fn plan_wait_outcome(shutdown: bool, outcome: SlotsRecv) -> (step: IterationStep)
    ensures
        shutdown ==> step == IterationStep::Stop(StopReason::Shutdown),
        !shutdown ==> step == (match outcome {
            SlotsRecv::Batch(batch) => IterationStep::Proceed(Some(batch)),
            SlotsRecv::Timeout => IterationStep::Proceed(None::<Vec<Slot>>),
            SlotsRecv::Disconnected => IterationStep::Stop(StopReason::Disconnected),
        }),
{
    if shutdown {
        IterationStep::Stop(StopReason::Shutdown)
    } else {
        match outcome {
            SlotsRecv::Batch(batch) => IterationStep::Proceed(Some(batch)),
            SlotsRecv::Timeout => IterationStep::Proceed(None),
            SlotsRecv::Disconnected => IterationStep::Stop(StopReason::Disconnected),
        }
    }
}

/// Head of one loop iteration: observes the shutdown flag, and only if it is
/// clear waits up to the fixed timeout for the next inbound batch. The loop
/// stops with `Shutdown` exactly when the flag was set; any other stop is an
/// orderly disconnect.
pub fn wait_for_slots_update(
    shutdown: bool,
    cluster_slots_update_receiver: &Receiver<Vec<Slot>>,
) -> (step: IterationStep)
    ensures
        shutdown <==> step == IterationStep::Stop(StopReason::Shutdown),
        step matches IterationStep::Stop(reason) ==> (reason == StopReason::Shutdown
            <==> shutdown),
{
    if shutdown {
        IterationStep::Stop(StopReason::Shutdown)
    } else {
        let outcome = recv_slots_timeout(cluster_slots_update_receiver, SLOTS_UPDATE_TIMEOUT_MS);
        plan_wait_outcome(false, outcome)
    }
}

/// Coalesces one iteration's slot updates: starting from the seed batch
/// received at the loop head, drains every batch queued in the channel at
/// this moment without waiting, sorts the combined sequence ascending, and
/// yields it as the slot-set advertisement — or nothing, so that an empty
/// advertisement is never issued. Every slot of the seed and of each drained
/// batch is carried into the advertisement, duplicates preserved.
pub fn process_cluster_slots_updates(
    slots: Vec<Slot>,
    cluster_slots_update_receiver: &Receiver<Vec<Slot>>,
) -> (advertisement: Option<Vec<Slot>>)
    ensures
        match advertisement {
            Some(v) => sorted_slots(v@) && v@.len() > 0 && v@.len() >= slots@.len()
                && (forall|s: Slot| slots@.contains(s) ==> v@.contains(s))
                && (exists|drained: Seq<Seq<Slot>>|
                v@.to_multiset() == slots@.to_multiset().add(batches_multiset(drained))),
            None => slots@.len() == 0,
        },
        slots@.len() > 0 ==> advertisement is Some,
{
    broadcast use vstd::multiset::group_multiset_axioms;

    let mut slots = slots;
    let ghost seed = slots@;
    let ghost mut drained: Seq<Seq<Slot>> = Seq::empty();
    proof {
        assert(seed.to_multiset().add(batches_multiset(drained)) =~= slots@.to_multiset());
    }
    let queued: usize = queued_batches(cluster_slots_update_receiver);
    let mut i: usize = 0;
    let mut open: bool = true;
    while i < queued && open
        invariant
            slots@.to_multiset() == seed.to_multiset().add(batches_multiset(drained)),
            slots@.len() >= seed.len(),
        decreases queued - i,
    {
        match try_recv_slots(cluster_slots_update_receiver) {
            Some(mut more) => {
                let ghost before = slots@;
                let ghost extra = more@;
                slots.append(&mut more);
                proof {
                    broadcast use vstd::multiset::group_multiset_axioms;

                    vstd::seq_lib::lemma_multiset_commutative::<Slot>(before, extra);
                    lemma_batches_multiset_push(drained, extra);
                    drained = drained.push(extra);
                    assert(slots@.to_multiset() =~= seed.to_multiset().add(
                        batches_multiset(drained),
                    ));
                }
            },
            None => {
                open = false;
            },
        }
        i += 1;
    }
    let merged = sort_slots(slots);
    if merged.is_empty() {
        None
    } else {
        proof {
            broadcast use vstd::seq_lib::group_to_multiset_ensures;

            assert(merged@.to_multiset() == seed.to_multiset().add(batches_multiset(drained)));
            assert forall|s: Slot| seed.contains(s) implies merged@.contains(s) by {
                assert(seed.to_multiset().count(s) > 0);
                assert(merged@.to_multiset().count(s) > 0);
            }
        }
        Some(merged)
    }
}

/// The startup slot-set advertisement: the frozen slots known at startup,
/// sorted ascending — or nothing when there are none, so that an empty
/// advertisement is never issued. The advertisement carries exactly the
/// given slots.
pub fn startup_slot_set(frozen_slots: Vec<Slot>) -> (advertisement: Option<Vec<Slot>>)
    ensures
        match advertisement {
            Some(v) => sorted_slots(v@) && v@.len() > 0 && v@.to_multiset()
                == frozen_slots@.to_multiset(),
            None => frozen_slots@.len() == 0,
        },
        advertisement is Some <==> frozen_slots@.len() > 0,
{
    let sorted = sort_slots(frozen_slots);
    if sorted.is_empty() {
        None
    } else {
        Some(sorted)
    }
}

} // verus!
