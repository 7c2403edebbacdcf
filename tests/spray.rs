use onyx::channels::{partition_for_pdms, split_channels};
use onyx::pdm::{heartbeat, switch_channels, Actuation};
use onyx::power::{CropBedPowerConfig, SprayScheduler};
use onyx::spray::{plan_spray, plan_weed_message, remap_channels, SprayError, WeedMessage};
use std::collections::HashMap;

const T0: i64 = 1_700_000_000_000_000;

fn message(channels: Vec<u8>, start: i64, end: i64) -> WeedMessage {
    WeedMessage { channels_to_open: channels, start_spray_time: start, end_spray_time: end }
}

fn act(pdm_index: u8, channels: Vec<u8>, duty_percent: u8) -> Actuation {
    Actuation { pdm_index, pgn: 17, channels, duty_percent }
}

#[test]
fn test_vec_split_power() {
    let channels: Vec<u8> = (1..=24).collect();
    let (a, b) = split_channels(&channels);
    assert_eq!(a, vec![1, 2, 3, 4, 5, 6, 7, 8, 9, 10, 11, 12]);
    assert_eq!(b, vec![13, 14, 15, 16, 17, 18, 19, 20, 21, 22, 23, 24]);
}

#[test]
fn partition_renumbers_second_pdm() {
    let channels: Vec<u8> = (1..=24).collect();
    let (a, b) = partition_for_pdms(&channels);
    assert_eq!(a, (1..=12).collect::<Vec<u8>>());
    assert_eq!(b, (1..=12).collect::<Vec<u8>>());
}

#[test]
fn partition_keeps_order() {
    let (a, b) = partition_for_pdms(&vec![20, 3, 14, 1, 13]);
    assert_eq!(a, vec![3, 1]);
    assert_eq!(b, vec![8, 2, 1]);
}

#[test]
fn split_channels_across_pdms() {
    let wired = remap_channels(&vec![0, 12, 13], &None).unwrap();
    assert_eq!(wired, vec![1, 13, 14]);
    let acts = switch_channels(&wired, true);
    assert_eq!(acts, vec![act(0, vec![1], 100), act(1, vec![1, 2], 100)]);
}

#[test]
fn switch_off_only_addresses_used_pdm() {
    assert_eq!(switch_channels(&vec![13, 24], false), vec![act(1, vec![1, 12], 0)]);
    assert_eq!(switch_channels(&vec![12], false), vec![act(0, vec![12], 0)]);
    assert_eq!(switch_channels(&vec![], true), vec![]);
}

#[test]
fn remap_through_channel_map() {
    let mut map = HashMap::new();
    map.insert(1u8, (11u8, 0u8));
    map.insert(2u8, (24u8, 1u8));
    let wired = remap_channels(&vec![1, 0], &Some(map.clone())).unwrap();
    assert_eq!(wired, vec![24, 11]);
    assert_eq!(remap_channels(&vec![0, 5, 6], &Some(map)), Err(SprayError::UnknownChannel(5)));
}

#[test]
fn remap_rejects_channel_without_number() {
    assert_eq!(remap_channels(&vec![3, 255], &None), Err(SprayError::UnknownChannel(255)));
}

#[test]
fn short_spray() {
    let msg = message(vec![0], T0 + 100_000, T0 + 200_000);
    let entries = plan_weed_message(&msg, T0, &None).unwrap();
    assert_eq!(entries.len(), 2);
    assert_eq!(entries[0].channels, vec![1]);
    assert_eq!(entries[0].time_to_fire, T0 + 100_000);
    assert!(entries[0].is_on);
    assert_eq!(entries[1].channels, vec![1]);
    assert_eq!(entries[1].time_to_fire, T0 + 200_000);
    assert!(!entries[1].is_on);
    for e in &entries {
        assert_eq!(e.original_spray_starts, T0 + 100_000);
        assert_eq!(e.original_spray_ending, T0 + 200_000);
    }
}

#[test]
fn short_spray_fires_on_first_pdm_without_heartbeat() {
    let mut s = SprayScheduler::new(None, T0);
    let msg = message(vec![0], T0 + 100_000, T0 + 200_000);
    assert_eq!(s.add_weed_message(&msg, T0), Ok(2));
    assert_eq!(s.process_message_queue(T0 + 50_000), vec![]);
    assert_eq!(s.process_message_queue(T0 + 100_000), vec![act(0, vec![1], 100)]);
    assert_eq!(s.last_fire, T0 + 100_000);
    assert_eq!(s.process_message_queue(T0 + 150_000), vec![]);
    assert_eq!(s.process_message_queue(T0 + 199_996), vec![act(0, vec![1], 0)]);
    assert_eq!(s.queue.len(), 0);
}

#[test]
fn long_spray_with_gap() {
    let start = T0 + 1_000;
    let end = start + 2_300_000;
    let entries = plan_spray(&vec![3, 4], start, end);
    assert_eq!(entries.len(), 23);
    for (k, e) in entries[..22].iter().enumerate() {
        assert_eq!(e.time_to_fire, start + (k as i64 + 1) * 100_000);
        assert!(e.is_on);
        assert_eq!(e.channels, vec![3, 4]);
    }
    assert_eq!(entries[21].time_to_fire, start + 2_200_000);
    assert_eq!(entries[22].time_to_fire, end);
    assert!(!entries[22].is_on);
}

#[test]
fn long_spray_entry_count() {
    let start = T0 + 10;
    assert_eq!(plan_spray(&vec![1], start, start + 1_500_000).len(), 15);
    assert_eq!(plan_spray(&vec![1], start, start + 1_000_001).len(), 11);
    assert_eq!(plan_spray(&vec![1], start, start + 1_000_000).len(), 2);
}

#[test]
fn past_spray_leaves_queue_unchanged() {
    let mut s = SprayScheduler::new(None, T0);
    assert_eq!(s.add_weed_message(&message(vec![0], T0 + 10, T0 + 20), T0), Ok(2));
    let stale = message(vec![1], T0 - 100, T0 + 100_000);
    assert_eq!(s.add_weed_message(&stale, T0), Err(SprayError::Stale));
    let at_now = message(vec![1], T0, T0 + 100_000);
    assert_eq!(s.add_weed_message(&at_now, T0), Err(SprayError::Stale));
    assert_eq!(s.queue.len(), 2);
}

#[test]
fn unmapped_channel_is_reported_before_queueing() {
    let mut map = HashMap::new();
    map.insert(1u8, (11u8, 0u8));
    let msg = message(vec![0, 1], T0 + 10, T0 + 20);
    assert_eq!(
        remap_channels(&msg.channels_to_open, &Some(map.clone())),
        Err(SprayError::UnknownChannel(1))
    );
    assert_eq!(plan_weed_message(&msg, T0, &Some(map.clone())), Err(SprayError::UnknownChannel(1)));
    let mut s = SprayScheduler::new(Some(map), T0);
    let wired = message(vec![0], T0 + 10, T0 + 20);
    assert_eq!(s.add_weed_message(&wired, T0), Ok(2));
    assert_eq!(s.queue.get(0).channels, vec![11]);
}

#[test]
fn same_message_twice_doubles_entries() {
    let mut s = SprayScheduler::new(None, T0);
    let msg = message(vec![2], T0 + 100_000, T0 + 200_000);
    assert_eq!(s.add_weed_message(&msg, T0), Ok(2));
    assert_eq!(s.add_weed_message(&msg, T0), Ok(2));
    assert_eq!(s.queue.len(), 4);
    assert_eq!(s.process_message_queue(T0 + 100_000), vec![act(0, vec![3], 100)]);
    assert_eq!(s.process_message_queue(T0 + 100_000), vec![act(0, vec![3], 100)]);
    assert_eq!(s.queue.len(), 2);
}

#[test]
fn heartbeat_after_silence() {
    let mut s = SprayScheduler::new(None, T0);
    assert_eq!(s.process_message_queue(T0 + 500_000), vec![]);
    let beat = s.process_message_queue(T0 + 500_001);
    let all: Vec<u8> = (1..=12).collect();
    assert_eq!(beat, vec![act(0, all.clone(), 0), act(1, all, 0)]);
    assert_eq!(s.last_fire, T0 + 500_001);
    assert_eq!(s.process_message_queue(T0 + 600_000), vec![]);
    assert_eq!(heartbeat(), beat);
}

#[test]
fn expired_entry_is_dropped_without_firing() {
    let mut s = SprayScheduler::new(None, T0);
    assert_eq!(s.add_weed_message(&message(vec![0], T0 + 10, T0 + 20), T0), Ok(2));
    assert_eq!(s.process_message_queue(T0 + 15), vec![]);
    assert_eq!(s.queue.len(), 1);
    assert_eq!(s.last_fire, T0);
}

#[test]
fn entry_beyond_spray_bound_waits() {
    let mut s = SprayScheduler::new(None, T0);
    assert_eq!(s.add_weed_message(&message(vec![0], T0 + 10, T0 + 20), T0), Ok(2));
    assert_eq!(s.process_message_queue(T0 + 5), vec![]);
    assert_eq!(s.queue.len(), 2);
    assert_eq!(s.process_message_queue(T0 + 6), vec![act(0, vec![1], 100)]);
}

#[test]
fn earliest_entry_fires_first() {
    let mut s = SprayScheduler::new(None, T0);
    assert_eq!(s.add_weed_message(&message(vec![13], T0 + 300, T0 + 400), T0), Ok(2));
    assert_eq!(s.add_weed_message(&message(vec![0], T0 + 100, T0 + 200), T0), Ok(2));
    assert_eq!(s.process_message_queue(T0 + 100), vec![act(0, vec![1], 100)]);
    assert_eq!(s.process_message_queue(T0 + 200), vec![act(0, vec![1], 0)]);
    assert_eq!(s.process_message_queue(T0 + 300), vec![act(1, vec![2], 100)]);
    assert_eq!(s.process_message_queue(T0 + 400), vec![act(1, vec![2], 0)]);
}

#[test]
fn firing_at_current_time_sends_heartbeat_after_epoch_start() {
    let mut s = SprayScheduler::new(None, 0);
    let beat = s.process_message_queue_now();
    assert_eq!(beat.len(), 2);
    assert!(s.last_fire > 1_600_000_000_000_000);
}

#[test]
fn message_judged_against_current_time() {
    let mut s = SprayScheduler::new(None, 0);
    assert_eq!(s.add_weed_message_now(&message(vec![0], 1_000, 2_000)), Err(SprayError::Stale));
    let far = i64::MAX - 1_000;
    assert_eq!(s.add_weed_message_now(&message(vec![0], far, far + 10)), Ok(2));
}

#[test]
fn power_config_builder() {
    let config = CropBedPowerConfig::new(0, String::from("can0"), 17650, None)
        .add_pdm_config_file(String::from("./config/devices/crop_bed/pdm_0.yaml"), 0)
        .add_pdm_config_file(String::from("./config/devices/crop_bed/pdm_1.yaml"), 1);
    assert_eq!(config.crop_bed_id, 0);
    assert_eq!(config.canbus_id, "can0");
    assert_eq!(config.port, 17650);
    assert_eq!(config.pdm_config_files.len(), 2);
    assert_eq!(config.pdm_config_files[&1], "./config/devices/crop_bed/pdm_1.yaml");
    assert!(config.channel_map.is_none());
}
