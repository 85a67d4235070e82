use rmk::ble::advertise::{advertise, AdvertisingTimeouts, HostError};
use rmk::ble::link::RequestedConnParams;
use rmk::split::advertisement::{
    first_split_peripheral, legacy_split_peripheral_id_from_advertisement, split_peripheral_id_from_advertisement,
    split_service_uuid, AdvReport, SPLIT_COMPANY_ID,
};
use rmk::split::manager::{
    begin_connection, link_ended, note_message, peripheral_validated, validate_split_product, write_result,
    LinkOutcome, ProductCheckEvent, SplitDriverError, SplitMessageKind,
};
use rmk::split::peers::{
    bit_for_peri, commit_peer_candidate, required_peripheral_mask, PeerSet, PeerSlots, ScanStep, PEER_BITS,
};
use rmk::split::power::{
    defaul_central_conn_param, desired_split_power_mode, idle_central_conn_param, pointing_central_conn_param,
    sleeping_central_conn_param, LinkPowerManager, PowerStateManager, SplitActivity, SplitPowerMode,
};
use rmk::split::supervisor::{
    can_search, open_split_connection_window, SplitConnectionState, SplitPublication, SplitSupervisor,
    SupervisorEvent,
};
use trouble_host::prelude::{BR_EDR_NOT_SUPPORTED, LE_GENERAL_DISCOVERABLE};

const PRODUCT_ID: u16 = 0x0071;

fn current_advertisement(product_id: u16, peripheral_id: u8) -> [u8; 28] {
    let mut data = [0u8; 28];
    data[0..3].copy_from_slice(&[2, 0x01, LE_GENERAL_DISCOVERABLE | BR_EDR_NOT_SUPPORTED]);
    data[3] = 17;
    data[4] = 0x07;
    data[5..21].copy_from_slice(&split_service_uuid());
    data[21..28].copy_from_slice(&[
        6,
        0xff,
        (SPLIT_COMPANY_ID & 0xff) as u8,
        (SPLIT_COMPANY_ID >> 8) as u8,
        (product_id & 0xff) as u8,
        (product_id >> 8) as u8,
        peripheral_id,
    ]);
    data
}

fn legacy_advertisement() -> [u8; 26] {
    let mut data = [0u8; 26];
    data[0..3].copy_from_slice(&[2, 0x01, LE_GENERAL_DISCOVERABLE | BR_EDR_NOT_SUPPORTED]);
    data[3] = 17;
    data[4] = 0x07;
    data[5..21].copy_from_slice(&split_service_uuid());
    data[21..26].copy_from_slice(&[4, 0xff, 0x18, 0xe1, 1]);
    data
}

#[test]
fn current_advertisement_requires_matching_product() {
    let matching = current_advertisement(PRODUCT_ID, 1);
    assert_eq!(split_peripheral_id_from_advertisement(&matching, PRODUCT_ID), Some(1));

    let mismatched = current_advertisement(PRODUCT_ID.wrapping_add(1), 1);
    assert_eq!(split_peripheral_id_from_advertisement(&mismatched, PRODUCT_ID), None);
}

#[test]
fn current_advertisement_requires_split_service() {
    let mut data = current_advertisement(PRODUCT_ID, 0);
    data[4] = 0x06;
    assert_eq!(split_peripheral_id_from_advertisement(&data, PRODUCT_ID), None);
}

#[test]
fn legacy_advertisement_remains_discoverable_during_migration() {
    assert_eq!(legacy_split_peripheral_id_from_advertisement(&legacy_advertisement()), Some(1));
}

#[test]
fn broken_advertisements_are_no_peripherals() {
    assert_eq!(split_peripheral_id_from_advertisement(&[], PRODUCT_ID), None);
    assert_eq!(split_peripheral_id_from_advertisement(&[0, 1, 2], PRODUCT_ID), None);
    let data = current_advertisement(PRODUCT_ID, 1);
    assert_eq!(split_peripheral_id_from_advertisement(&data[..27], PRODUCT_ID), None);
    assert_eq!(legacy_split_peripheral_id_from_advertisement(&legacy_advertisement()[..25]), None);
    assert_eq!(legacy_split_peripheral_id_from_advertisement(&data), None);
}

#[test]
fn the_last_product_counts() {
    let mut data = current_advertisement(PRODUCT_ID, 1).to_vec();
    data.extend_from_slice(&[6, 0xff, 0x18, 0xe1, 0x71, 0x00, 5, 2, 0xff, 0]);
    assert_eq!(split_peripheral_id_from_advertisement(&data, PRODUCT_ID), Some(5));
    // Order does not matter.
    let mut swapped = vec![6, 0xff, 0x18, 0xe1, 0x71, 0x00, 9, 17, 0x07];
    swapped.extend_from_slice(&split_service_uuid());
    assert_eq!(split_peripheral_id_from_advertisement(&swapped, PRODUCT_ID), Some(9));
}

#[test]
fn the_first_report_of_a_peripheral_counts() {
    let reports = vec![
        AdvReport { addr: [1; 6], data: vec![2, 1, 6] },
        AdvReport { addr: [2; 6], data: legacy_advertisement().to_vec() },
        AdvReport { addr: [3; 6], data: current_advertisement(PRODUCT_ID, 0).to_vec() },
    ];
    assert_eq!(first_split_peripheral(&reports, PRODUCT_ID), Some((1, [2; 6])));
    assert_eq!(first_split_peripheral(&Vec::new(), PRODUCT_ID), None);
}

#[test]
fn split_power_mode_tracks_activity_and_sleep_timeout() {
    for timeout_secs in [0u32, 600, u32::MAX] {
        let mode = |now, last, pointing, requested| {
            desired_split_power_mode(now, last, pointing, requested, timeout_secs)
        };
        assert_eq!(mode(1_999, 0, 0, false), SplitPowerMode::Active);
        assert_eq!(mode(2_000, 0, 0, false), SplitPowerMode::Idle);
        assert_eq!(mode(2_100, 2_000, 2_000, false), SplitPowerMode::Pointing);
        assert_eq!(mode(2_500, 2_000, 2_000, false), SplitPowerMode::Active);

        if timeout_secs != 0 {
            let timeout_ms = timeout_secs.saturating_mul(1_000);
            assert_eq!(mode(timeout_ms, 0, 0, false), SplitPowerMode::Sleeping);
        }
        assert_eq!(mode(1, 0, 0, true), SplitPowerMode::Sleeping);
    }
}

#[test]
fn the_clock_may_wrap() {
    assert_eq!(desired_split_power_mode(500, u32::MAX - 99, 0, false, 600), SplitPowerMode::Active);
    assert_eq!(desired_split_power_mode(100, u32::MAX - 99, u32::MAX - 99, false, 600), SplitPowerMode::Pointing);
}

#[test]
fn pointing_split_link_uses_7_5_ms_without_slave_latency() {
    let params = pointing_central_conn_param();

    assert_eq!(params.min_connection_interval, 7_500);
    assert_eq!(params.max_connection_interval, 7_500);
    assert_eq!(params.max_latency, 0);
}

#[test]
fn sleeping_split_link_bounds_first_peripheral_event_latency() {
    let params = sleeping_central_conn_param();

    assert_eq!(params.min_connection_interval, 100_000);
    assert_eq!(params.max_connection_interval, 100_000);
    assert_eq!(params.max_latency, 0);
}

#[test]
fn split_links_keep_the_stack_defaults_for_event_lengths() {
    let defaults = trouble_host::prelude::RequestedConnParams::default();
    for (params, interval, timeout) in [
        (defaul_central_conn_param(), 15_000, 5_000_000),
        (idle_central_conn_param(), 30_000, 5_000_000),
        (pointing_central_conn_param(), 7_500, 5_000_000),
        (sleeping_central_conn_param(), 100_000, 11_000_000),
    ] {
        assert_eq!(
            params,
            RequestedConnParams {
                min_connection_interval: interval,
                max_connection_interval: interval,
                max_latency: 0,
                min_event_length: defaults.min_event_length.as_micros(),
                max_event_length: defaults.max_event_length.as_micros(),
                supervision_timeout: timeout,
            }
        );
    }
}

#[test]
fn activity_wakes_a_link_and_requests_put_it_to_sleep() {
    let mut activity = SplitActivity::new();
    activity.start(10);
    activity.request_sleep();
    assert_eq!(activity.mode(20, 0), SplitPowerMode::Sleeping);
    activity.start(20);
    assert_eq!(activity.mode(20, 0), SplitPowerMode::Sleeping);
    activity.update_activity_time(30);
    assert_eq!(activity.mode(30, 0), SplitPowerMode::Active);
    activity.update_pointing_activity_time(40);
    assert_eq!(activity.mode(40, 0), SplitPowerMode::Pointing);
}

#[test]
fn one_link_owns_the_sleep_state() {
    let mut manager = LinkPowerManager::new();
    let mut activity = SplitActivity::new();
    activity.update_activity_time(1_000);
    assert_eq!(manager.next(&activity, 1_001, 600), None);
    activity.request_sleep();
    let (mode, params) = manager.next(&activity, 1_002, 600).unwrap();
    assert_eq!(mode, SplitPowerMode::Sleeping);
    assert_eq!(params, sleeping_central_conn_param());
    let mut sleeping = false;
    assert_eq!(manager.entered(mode, 1, &mut sleeping), Some(true));
    assert!(sleeping);
    activity.update_activity_time(1_003);
    let (mode, params) = manager.next(&activity, 1_003, 600).unwrap();
    assert_eq!(params, defaul_central_conn_param());
    assert_eq!(manager.entered(mode, 1, &mut sleeping), Some(false));
    assert!(!sleeping);
}

#[test]
fn several_links_leave_the_sleep_state_alone() {
    let mut manager = LinkPowerManager::new();
    let mut sleeping = false;
    assert_eq!(manager.entered(SplitPowerMode::Sleeping, 2, &mut sleeping), None);
    assert!(!sleeping);

    let mut activity = SplitActivity::new();
    let (mut owner, announce) = PowerStateManager::start(&mut activity, 5_000, 600, &mut sleeping);
    assert_eq!(announce, None);
    assert_eq!(activity.last_activity_ms, 5_000);
    activity.request_sleep();
    assert_eq!(owner.step(&activity, 5_100, 600, &mut sleeping), Some(true));
    assert_eq!(owner.step(&activity, 5_200, 600, &mut sleeping), None);
    activity.update_activity_time(5_300);
    assert_eq!(owner.step(&activity, 5_300, 600, &mut sleeping), Some(false));
    assert!(!sleeping);

    let mut asleep = SplitActivity { last_activity_ms: 1, last_pointing_activity_ms: 0, sleep_requested: true };
    let (_, announce) = PowerStateManager::start(&mut asleep, 5_000, 600, &mut sleeping);
    assert_eq!(announce, Some(true));
}

#[test]
fn peripherals_beyond_the_last_share_a_bit() {
    assert_eq!(bit_for_peri(0), 1);
    assert_eq!(bit_for_peri(31), 1 << 31);
    assert_eq!(bit_for_peri(40), 1 << 31);
    assert_eq!(required_peripheral_mask(0), 0);
    assert_eq!(required_peripheral_mask(2), 3);
    assert_eq!(required_peripheral_mask(32), u32::MAX);
    assert_eq!(required_peripheral_mask(33), u32::MAX);
}

#[test]
fn all_required_peripherals_have_to_be_connected() {
    let mut connected = PeerSet::new();
    assert!(connected.all_peripherals_connected(0));
    connected.publish_peripheral_connection(0, true);
    assert!(!connected.all_peripherals_connected(2));
    connected.publish_peripheral_connection(1, true);
    assert!(connected.all_peripherals_connected(2));
    connected.publish_peripheral_connection(0, false);
    assert!(!connected.all_peripherals_connected(2));
    begin_connection(&mut connected, 1);
    assert_eq!(connected, PeerSet::new());
}

#[test]
fn scans_fill_vacant_slots_on_trial() {
    let mut slots = PeerSlots::from_saved::<2>(&[Some([1; 6]), None]).unwrap();
    let mut candidates = PeerSet::new();
    assert!(slots.need_scan());
    // A known address, a taken slot and an unknown slot change nothing.
    assert_eq!(slots.on_found(&mut candidates, 0, [1; 6]), ScanStep::KeepScanning);
    assert_eq!(slots.on_found(&mut candidates, 0, [9; 6]), ScanStep::KeepScanning);
    assert_eq!(slots.on_found(&mut candidates, 7, [9; 6]), ScanStep::KeepScanning);
    assert_eq!(slots.address_of(0), Some([1; 6]));
    assert_eq!(slots.address_of(7), None);
    assert_eq!(candidates, PeerSet::new());
    assert_eq!(slots.on_found(&mut candidates, 1, [2; 6]), ScanStep::Done);
    assert_eq!(slots.address_of(1), Some([2; 6]));
    assert!(!slots.need_scan());
    // Only the address on trial is saved, and only once.
    assert!(commit_peer_candidate(&mut candidates, 0, [1; 6]).is_none());
    let record = commit_peer_candidate(&mut candidates, 1, [2; 6]).unwrap();
    assert_eq!((record.peer_id, record.is_valid, record.address), (1, true, [2; 6]));
    assert!(commit_peer_candidate(&mut candidates, 1, [2; 6]).is_none());
}

#[test]
fn too_many_slots_are_refused() {
    assert!(PeerSlots::from_saved::<2>(&[None; 2]).is_some());
    assert!(PeerSlots::from_saved::<2>(&[None; 3]).is_none());
    assert!(!PeerSlots::from_saved::<0>(&[]).unwrap().need_scan());
}

#[test]
fn slots_may_outnumber_the_bits_of_a_set() {
    let mut saved = [Some([1; 6]); PEER_BITS + 8];
    saved[PEER_BITS + 7] = None;
    let mut slots = PeerSlots::from_saved::<{ PEER_BITS + 8 }>(&saved).unwrap();
    let mut candidates = PeerSet::new();
    assert!(slots.need_scan());
    assert_eq!(slots.on_found(&mut candidates, 39, [2; 6]), ScanStep::Done);
    assert_eq!(slots.address_of(PEER_BITS + 7), Some([2; 6]));
    assert_eq!(slots.address_of(PEER_BITS + 6), Some([1; 6]));
    let record = commit_peer_candidate(&mut candidates, 39, [2; 6]).unwrap();
    assert_eq!((record.peer_id, record.is_valid, record.address), (39, true, [2; 6]));
}

#[test]
fn failed_links_forget_the_address() {
    for outcome in [LinkOutcome::NotConnected, LinkOutcome::Ended { validated: false }] {
        let mut slots = PeerSlots::from_saved::<4>(&[Some([1; 6]), Some([2; 6])]).unwrap();
        let mut candidates = PeerSet::new();
        candidates.insert(1);
        let record = link_ended(&mut slots, &mut candidates, 1, outcome).unwrap();
        assert_eq!((record.peer_id, record.is_valid, record.address), (1, false, [0; 6]));
        assert_eq!(slots.address_of(1), None);
        assert_eq!(slots.address_of(0), Some([1; 6]));
        assert_eq!(candidates, PeerSet::new());
        assert!(slots.need_scan());
    }
}

#[test]
fn proved_links_keep_the_address() {
    let mut slots = PeerSlots::from_saved::<1>(&[Some([1; 6])]).unwrap();
    let mut candidates = PeerSet::new();
    let mut connected = PeerSet::new();
    candidates.insert(0);
    let record = peripheral_validated(&mut candidates, &mut connected, 0, [1; 6]).unwrap();
    assert!(record.is_valid);
    assert!(connected.all_peripherals_connected(1));
    assert!(peripheral_validated(&mut candidates, &mut connected, 0, [1; 6]).is_none());
    assert!(link_ended(&mut slots, &mut candidates, 0, LinkOutcome::Ended { validated: true }).is_none());
    assert_eq!(slots.address_of(0), Some([1; 6]));
}

#[test]
fn peripherals_have_to_name_their_product() {
    let message = |kind| validate_split_product(ProductCheckEvent::Message(kind), PRODUCT_ID);
    assert_eq!(message(SplitMessageKind::ProductId(PRODUCT_ID)), Some(true));
    assert_eq!(message(SplitMessageKind::ProductId(PRODUCT_ID + 1)), Some(false));
    assert_eq!(message(SplitMessageKind::Key), None);
    assert_eq!(message(SplitMessageKind::Other), None);
    assert_eq!(validate_split_product(ProductCheckEvent::WriteFailed, PRODUCT_ID), Some(false));
    assert_eq!(validate_split_product(ProductCheckEvent::ReadFailed, PRODUCT_ID), Some(false));
    assert_eq!(validate_split_product(ProductCheckEvent::TimedOut, PRODUCT_ID), Some(false));
}

#[test]
fn messages_count_as_activity() {
    let mut activity = SplitActivity::new();
    assert!(!note_message(&mut activity, SplitMessageKind::Other, 5));
    assert_eq!(activity, SplitActivity::new());
    assert!(note_message(&mut activity, SplitMessageKind::Key, 6));
    assert_eq!((activity.last_activity_ms, activity.last_pointing_activity_ms), (6, 0));
    assert!(note_message(&mut activity, SplitMessageKind::Pointing, 7));
    assert_eq!((activity.last_activity_ms, activity.last_pointing_activity_ms), (7, 7));
    // A second message in the same millisecond counts too.
    assert!(note_message(&mut activity, SplitMessageKind::Pointing, 7));
}

#[test]
fn only_a_lost_peripheral_fails_a_write() {
    assert_eq!(write_result(None, 64), Ok(64));
    assert_eq!(write_result(Some(HostError::Other), 64), Ok(64));
    assert_eq!(write_result(Some(HostError::NotFound), 64), Err(SplitDriverError::Disconnected));
}

#[test]
fn searches_end_connected_or_idle() {
    let secs = 1_000_000u64;
    let (mut supervisor, first) = SplitSupervisor::new(0, false, 5 * secs, 60);
    assert_eq!(first, SplitPublication { state: SplitConnectionState::Searching, done: None });
    assert!(supervisor.has_deadline(60));
    assert_eq!(supervisor.deadline, 65 * secs);
    assert_eq!(supervisor.step(SupervisorEvent::ConnectionChanged, false, 6 * secs, 60), None);
    assert_eq!(
        supervisor.step(SupervisorEvent::ConnectionChanged, true, 7 * secs, 60),
        Some(SplitPublication { state: SplitConnectionState::Connected, done: Some(0) })
    );
    assert_eq!(supervisor.step(SupervisorEvent::ConnectionChanged, true, 8 * secs, 60), None);
    assert_eq!(
        supervisor.step(SupervisorEvent::ConnectionChanged, false, 9 * secs, 60),
        Some(SplitPublication { state: SplitConnectionState::Searching, done: None })
    );
    assert_eq!(supervisor.deadline, 69 * secs);
    assert_eq!(
        supervisor.step(SupervisorEvent::DeadlineReached, false, 69 * secs, 60),
        Some(SplitPublication { state: SplitConnectionState::Idle, done: Some(0) })
    );
    assert!(!supervisor.has_deadline(60));
    assert_eq!(
        supervisor.step(SupervisorEvent::Restart(1), false, 70 * secs, 60),
        Some(SplitPublication { state: SplitConnectionState::Searching, done: None })
    );
    assert_eq!((supervisor.generation, supervisor.deadline), (1, 130 * secs));
    assert_eq!(
        supervisor.step(SupervisorEvent::Restart(2), true, 71 * secs, 60),
        Some(SplitPublication { state: SplitConnectionState::Connected, done: Some(2) })
    );
}

#[test]
fn searches_without_a_timeout_go_on() {
    let (mut supervisor, first) = SplitSupervisor::new(3, true, 0, 0);
    assert_eq!(first, SplitPublication { state: SplitConnectionState::Connected, done: Some(3) });
    supervisor.step(SupervisorEvent::ConnectionChanged, false, 10, 0);
    assert_eq!(supervisor.state, SplitConnectionState::Searching);
    assert!(!supervisor.has_deadline(0));
    assert!(can_search(0, u32::MAX));
    assert!(!can_search(u64::MAX, 1));
}

#[test]
fn windows_are_opened_only_when_a_search_makes_sense() {
    let mut generation = 4u32;
    assert_eq!(open_split_connection_window(&mut generation, true, 60), None);
    assert_eq!(open_split_connection_window(&mut generation, false, 0), None);
    assert_eq!(generation, 4);
    assert_eq!(open_split_connection_window(&mut generation, false, 60), Some(5));
    assert_eq!(generation, 5);
    generation = u32::MAX;
    assert_eq!(open_split_connection_window(&mut generation, false, 60), Some(0));
}

#[test]
fn keyboards_are_no_peripherals() {
    let timeouts = AdvertisingTimeouts { reconnect_secs: 300, pairing_secs: 60 };
    let plan = advertise("0123456789abcdef", false, &timeouts).unwrap();
    assert_eq!(split_peripheral_id_from_advertisement(&plan.data, PRODUCT_ID), None);
    assert_eq!(legacy_split_peripheral_id_from_advertisement(&plan.data), None);
}
