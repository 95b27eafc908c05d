//! Trusted boundary to the inbound slot-update channel.
//!
//! The service is the single consumer of a multi-producer channel of slot
//! batches. What a receive yields depends on what other threads have sent,
//! so the wrappers here promise nothing about the messages themselves; the
//! verified callers state what holds of every outcome.

use crate::slots::Slot;
use crossbeam_channel::Receiver;
use vstd::prelude::*;

verus! {

/// Outcome of the bounded wait for the next inbound slot-update batch.
#[derive(Debug, PartialEq, Eq)]
pub enum SlotsRecv {
    /// A batch of slot updates arrived within the timeout.
    Batch(Vec<Slot>),
    /// The wait elapsed with nothing arriving; the channel is still open.
    Timeout,
    /// The channel is empty and every producer is gone.
    Disconnected,
}

#[verifier::external_type_specification]
#[verifier::external_body]
#[verifier::reject_recursive_types(T)]
pub struct ExReceiver<T>(Receiver<T>);

/// Relies on crossbeam_channel::Receiver::recv_timeout: blocks up to the
/// given number of milliseconds for the next message; reports a timeout when
/// nothing arrived in time, and a disconnect when the channel is empty and
/// all senders have been dropped.
#[verifier::external_body]
pub(crate) fn recv_slots_timeout(
    receiver: &Receiver<Vec<Slot>>,
    timeout_ms: u64,
) -> (outcome: SlotsRecv) {
    match receiver.recv_timeout(std::time::Duration::from_millis(timeout_ms)) {
        Ok(batch) => SlotsRecv::Batch(batch),
        Err(crossbeam_channel::RecvTimeoutError::Timeout) => SlotsRecv::Timeout,
        Err(crossbeam_channel::RecvTimeoutError::Disconnected) => SlotsRecv::Disconnected,
    }
}

/// Relies on crossbeam_channel::Receiver::try_recv: takes the next queued
/// message without waiting; yields nothing when the channel is currently
/// empty or all senders are gone.
#[verifier::external_body]
pub(crate) fn try_recv_slots(receiver: &Receiver<Vec<Slot>>) -> (batch: Option<Vec<Slot>>) {
    match receiver.try_recv() {
        Ok(batch) => Some(batch),
        Err(_) => None,
    }
}

/// Relies on crossbeam_channel::Receiver::len: the number of messages queued
/// in the channel at the moment of the call.
#[verifier::external_body]
pub(crate) fn queued_batches(receiver: &Receiver<Vec<Slot>>) -> (count: usize) {
    receiver.len()
}

} // verus!
