use cluster_slots_service::ClusterSlotsServiceTiming;
use cluster_slots_service::IterationStep;
use cluster_slots_service::SlotsRecv;
use cluster_slots_service::StopReason;
use cluster_slots_service::plan_wait_outcome;
use cluster_slots_service::process_cluster_slots_updates;
use cluster_slots_service::should_flush_metrics;
use cluster_slots_service::sort_slots;
use cluster_slots_service::startup_slot_set;
use cluster_slots_service::wait_for_slots_update;
use crossbeam_channel::unbounded;

#[test]
fn coalesce_merges_and_sorts_batches_in_one_window() {
    let (sender, receiver) = unbounded::<Vec<u64>>();
    sender.send(vec![5, 8]).unwrap();
    let advertisement = process_cluster_slots_updates(vec![5, 3], &receiver);
    assert_eq!(advertisement, Some(vec![3, 5, 5, 8]));
}

#[test]
fn coalesce_drains_every_queued_batch() {
    let (sender, receiver) = unbounded::<Vec<u64>>();
    sender.send(vec![9]).unwrap();
    sender.send(vec![1, 4]).unwrap();
    sender.send(vec![7]).unwrap();
    let advertisement = process_cluster_slots_updates(Vec::new(), &receiver);
    assert_eq!(advertisement, Some(vec![1, 4, 7, 9]));
    assert!(receiver.is_empty());
}

#[test]
fn coalesce_with_nothing_to_advertise_yields_none() {
    let (_sender, receiver) = unbounded::<Vec<u64>>();
    let advertisement = process_cluster_slots_updates(Vec::new(), &receiver);
    assert_eq!(advertisement, None);
}

#[test]
fn coalesce_seed_alone_is_advertised_sorted() {
    let (sender, receiver) = unbounded::<Vec<u64>>();
    drop(sender);
    let advertisement = process_cluster_slots_updates(vec![2, 1], &receiver);
    assert_eq!(advertisement, Some(vec![1, 2]));
}

#[test]
fn sort_preserves_duplicates_and_orders_ascending() {
    assert_eq!(sort_slots(vec![5, 3, 5]), vec![3, 5, 5]);
    assert_eq!(sort_slots(Vec::new()), Vec::<u64>::new());
    assert_eq!(sort_slots(vec![1, 2, 3]), vec![1, 2, 3]);
    assert_eq!(sort_slots(vec![u64::MAX, 0, u64::MAX]), vec![0, u64::MAX, u64::MAX]);
}

#[test]
fn startup_advertises_frozen_slots_sorted() {
    assert_eq!(startup_slot_set(vec![2, 4, 6]), Some(vec![2, 4, 6]));
    assert_eq!(startup_slot_set(vec![4, 6, 2]), Some(vec![2, 4, 6]));
}

#[test]
fn startup_with_no_frozen_slots_advertises_nothing() {
    assert_eq!(startup_slot_set(Vec::new()), None);
}

#[test]
fn shutdown_stops_the_loop_before_waiting() {
    let (sender, receiver) = unbounded::<Vec<u64>>();
    sender.send(vec![1]).unwrap();
    let step = wait_for_slots_update(true, &receiver);
    assert_eq!(step, IterationStep::Stop(StopReason::Shutdown));
    // The pending batch was not consumed: shutdown short-circuits the wait.
    assert_eq!(receiver.len(), 1);
}

#[test]
fn empty_channel_times_out_and_proceeds_without_advertisement() {
    let (_sender, receiver) = unbounded::<Vec<u64>>();
    let step = wait_for_slots_update(false, &receiver);
    assert_eq!(step, IterationStep::Proceed(None));
}

#[test]
fn disconnected_channel_terminates_the_loop() {
    let (sender, receiver) = unbounded::<Vec<u64>>();
    drop(sender);
    let step = wait_for_slots_update(false, &receiver);
    assert_eq!(step, IterationStep::Stop(StopReason::Disconnected));
}

#[test]
fn arrived_batch_seeds_the_iteration() {
    let (sender, receiver) = unbounded::<Vec<u64>>();
    sender.send(vec![7, 2]).unwrap();
    let step = wait_for_slots_update(false, &receiver);
    assert_eq!(step, IterationStep::Proceed(Some(vec![7, 2])));
}

#[test]
fn plan_covers_every_wait_outcome() {
    assert_eq!(
        plan_wait_outcome(true, SlotsRecv::Batch(vec![1])),
        IterationStep::Stop(StopReason::Shutdown)
    );
    assert_eq!(
        plan_wait_outcome(false, SlotsRecv::Batch(vec![1])),
        IterationStep::Proceed(Some(vec![1]))
    );
    assert_eq!(plan_wait_outcome(false, SlotsRecv::Timeout), IterationStep::Proceed(None));
    assert_eq!(
        plan_wait_outcome(false, SlotsRecv::Disconnected),
        IterationStep::Stop(StopReason::Disconnected)
    );
}

#[test]
fn timing_accumulates_and_flush_resets() {
    let mut timing = ClusterSlotsServiceTiming::new();
    assert_eq!(timing.lowest_slot_elapsed, 0);
    assert_eq!(timing.process_cluster_slots_updates_elapsed, 0);
    timing.update(5, 7);
    timing.update(10, 20);
    assert_eq!(timing.lowest_slot_elapsed, 15);
    assert_eq!(timing.process_cluster_slots_updates_elapsed, 27);
    let (lowest, process) = timing.flush();
    assert_eq!((lowest, process), (15, 27));
    assert_eq!(timing.lowest_slot_elapsed, 0);
    assert_eq!(timing.process_cluster_slots_updates_elapsed, 0);
}

#[test]
fn timing_default_starts_at_zero() {
    let timing = ClusterSlotsServiceTiming::default();
    assert_eq!(timing.lowest_slot_elapsed, 0);
    assert_eq!(timing.process_cluster_slots_updates_elapsed, 0);
}

#[test]
fn metrics_flush_is_gated_by_the_wall_clock_interval() {
    assert!(!should_flush_metrics(0));
    assert!(!should_flush_metrics(1));
    assert!(!should_flush_metrics(2));
    assert!(should_flush_metrics(3));
    assert!(should_flush_metrics(100));
}
