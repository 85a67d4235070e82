use rmk::battery::{seed_battery_level, BatteryStatus, ChargeState, LocalBattery};
use rmk::ble::advertise::{
    advertise, advertise_first, advertise_next, advertising_interval_ms, advertising_mode,
    directed_reconnect_should_continue, pairing_window_timeout_secs, AdvertisingOutcome, AdvertisingPhase,
    AdvertisingStep, AdvertisingTimeouts, BleAdvertisingMode, HostError,
};
use rmk::ble::link::{
    ensure_host_ble_2m_phy_step, host_connection_params, host_idle_max_latency, host_phy_update_state,
    is_hci_link_update_busy, link_update_step, ConnParamsAction, ConnParamsState, HostPhyUpdateState, LinkOutcome,
    LinkStep, PhyKind, RequestedConnParams, HCI_LINK_UPDATE_ATTEMPTS, HOST_INTERACTIVE_MAX_LATENCY,
    HOST_PHY_UPDATE_ATTEMPTS,
};
use rmk::ble::motion::{same_motion_direction, BleMouseMotion};
use rmk::ble::writer::{start, step, WriterAction, WriterConfig, WriterEvent, WriterState};
use rmk::event::{MouseReport, Report};
use rmk::features::Features;
use rmk::state::{BleState, BleStatus, ConnectionState};

fn mouse(buttons: u8, x: i8, y: i8, wheel: i8, pan: i8) -> MouseReport {
    MouseReport { buttons, x, y, wheel, pan }
}

fn features() -> Features {
    Features { split: true, host: true, ble_zero_latency: false, no_usb: false }
}

fn in_stack(params: &RequestedConnParams) -> trouble_host::prelude::RequestedConnParams {
    trouble_host::prelude::RequestedConnParams {
        min_connection_interval: embassy_time::Duration::from_micros(params.min_connection_interval),
        max_connection_interval: embassy_time::Duration::from_micros(params.max_connection_interval),
        max_latency: params.max_latency,
        min_event_length: embassy_time::Duration::from_micros(params.min_event_length),
        max_event_length: embassy_time::Duration::from_micros(params.max_event_length),
        supervision_timeout: embassy_time::Duration::from_micros(params.supervision_timeout),
    }
}

#[test]
fn ble_mouse_motion_coalesces_same_direction_and_preserves_total() {
    let mut motion = BleMouseMotion::new(&mouse(1, 120, -120, 0, 0)).unwrap();
    assert!(motion.try_merge(&mouse(1, 120, -120, 0, 0)));

    let first = motion.next_report().unwrap();
    let second = motion.next_report().unwrap();
    assert_eq!((first.buttons, first.x, first.y), (1, 127, -128));
    assert_eq!((second.buttons, second.x, second.y), (1, 113, -112));
    assert!(motion.next_report().is_none());
}

#[test]
fn ble_mouse_motion_keeps_ordering_barriers() {
    let mut motion = BleMouseMotion::new(&mouse(0, 10, 5, 0, 0)).unwrap();
    assert!(!motion.try_merge(&mouse(1, 2, 1, 0, 0)));
    assert!(!motion.try_merge(&mouse(0, 2, 1, 1, 0)));
    assert!(!motion.try_merge(&mouse(0, -2, 1, 0, 0)));
    assert!(!motion.try_merge(&mouse(0, 0, 0, 0, 0)));
    assert!(same_motion_direction(10, 0));
    assert!(!same_motion_direction(-10, 1));
}

#[test]
fn runs_add_up_to_the_limits_of_their_range() {
    let mut motion = BleMouseMotion { buttons: 0, x: i32::MAX - 100, y: i32::MIN + 100 };
    assert!(motion.try_merge(&mouse(0, 100, -100, 0, 0)));
    assert_eq!((motion.x, motion.y), (i32::MAX, i32::MIN));
    assert!(motion.try_merge(&mouse(0, 1, -1, 0, 0)));
    assert_eq!((motion.x, motion.y), (i32::MAX, i32::MIN));
}

#[test]
fn scroll_and_clicks_are_no_motion() {
    assert!(BleMouseMotion::new(&mouse(1, 0, 0, 0, 0)).is_none());
    assert!(BleMouseMotion::new(&mouse(0, 1, 0, 1, 0)).is_none());
    assert!(BleMouseMotion::new(&mouse(0, 1, 0, 0, -1)).is_none());
}

#[test]
fn only_transaction_collision_and_controller_busy_retry_link_updates() {
    assert!(is_hci_link_update_busy(0x2a));
    assert!(is_hci_link_update_busy(0x3a));
    assert!(!is_hci_link_update_busy(0x00));
    assert!(!is_hci_link_update_busy(0x08));
}

#[test]
fn busy_controllers_are_asked_again_for_a_while() {
    assert_eq!(link_update_step(1, LinkOutcome::Accepted), LinkStep::Done(true));
    assert_eq!(link_update_step(1, LinkOutcome::NotConnected), LinkStep::Done(false));
    assert_eq!(link_update_step(1, LinkOutcome::Failed), LinkStep::Done(false));
    assert_eq!(link_update_step(1, LinkOutcome::Hci(0x08)), LinkStep::Done(false));
    assert_eq!(link_update_step(1, LinkOutcome::Hci(0x2a)), LinkStep::Retry(2));
    let mut attempt = 1;
    while let LinkStep::Retry(next) = link_update_step(attempt, LinkOutcome::Hci(0x3a)) {
        attempt = next;
    }
    assert_eq!(attempt, HCI_LINK_UPDATE_ATTEMPTS);
}

#[test]
fn advertising_without_active_bond_uses_pairing_mode() {
    assert_eq!(advertising_mode(false), BleAdvertisingMode::Pairing);
}

#[test]
fn advertising_with_active_bond_uses_reconnecting_mode() {
    assert_eq!(advertising_mode(true), BleAdvertisingMode::Reconnecting);
}

#[test]
fn bonded_profile_does_not_open_pairing_window() {
    assert_eq!(pairing_window_timeout_secs(true, 60, 300), None);
}

#[test]
fn unbonded_profile_uses_configured_pairing_window() {
    assert_eq!(pairing_window_timeout_secs(false, 60, 300), Some(60));
}

#[test]
fn unbonded_profile_preserves_legacy_pairing_timeout_fallback() {
    assert_eq!(pairing_window_timeout_secs(false, 0, 300), Some(300));
}

#[test]
fn high_duty_timeout_continues_with_low_duty_reconnect() {
    assert!(directed_reconnect_should_continue(&HostError::Timeout));
    assert!(!directed_reconnect_should_continue(&HostError::Disconnected));
}

#[test]
fn host_phy_update_stops_only_after_bidirectional_2m_is_verified() {
    assert_eq!(host_phy_update_state(PhyKind::Le2M, PhyKind::Le2M, 1), HostPhyUpdateState::Verified);
    assert_eq!(host_phy_update_state(PhyKind::Le2M, PhyKind::Le1M, 1), HostPhyUpdateState::Retry);
    assert_eq!(host_phy_update_state(PhyKind::Le1M, PhyKind::Le2M, 1), HostPhyUpdateState::Retry);
}

#[test]
fn host_phy_update_stops_retrying_after_bounded_attempts() {
    assert_eq!(
        host_phy_update_state(PhyKind::Le1M, PhyKind::Le1M, HOST_PHY_UPDATE_ATTEMPTS - 1),
        HostPhyUpdateState::Retry
    );
    assert_eq!(
        host_phy_update_state(PhyKind::Le1M, PhyKind::Le1M, HOST_PHY_UPDATE_ATTEMPTS),
        HostPhyUpdateState::Exhausted
    );
}

#[test]
fn host_phy_upgrade_goes_on_while_connected() {
    let le_2m = Some((PhyKind::Le2M, PhyKind::Le2M));
    let le_1m = Some((PhyKind::Le1M, PhyKind::Le1M));
    assert_eq!(ensure_host_ble_2m_phy_step(1, le_2m, true), None);
    assert_eq!(ensure_host_ble_2m_phy_step(1, le_1m, true), Some(2));
    assert_eq!(ensure_host_ble_2m_phy_step(1, le_1m, false), None);
    assert_eq!(ensure_host_ble_2m_phy_step(2, None, true), Some(3));
    assert_eq!(ensure_host_ble_2m_phy_step(3, None, true), None);
    assert_eq!(ensure_host_ble_2m_phy_step(3, Some((PhyKind::LeCoded, PhyKind::LeCodedS2)), true), None);
}

#[test]
fn host_connection_latency_matches_feature_policy() {
    for zero_latency in [false, true] {
        let features = Features { ble_zero_latency: zero_latency, ..features() };
        let idle = host_connection_params(7500, host_idle_max_latency(&features));
        let interactive = host_connection_params(7500, HOST_INTERACTIVE_MAX_LATENCY);

        assert!(in_stack(&idle).is_valid());
        assert!(in_stack(&interactive).is_valid());
        assert_eq!(idle.min_connection_interval, interactive.min_connection_interval);
        assert_eq!(idle.max_connection_interval, interactive.max_connection_interval);
        if zero_latency {
            assert_eq!(idle.max_latency, 0);
        } else {
            assert_eq!(idle.max_latency, 30);
        }
        assert_eq!(interactive.max_latency, 0);
        assert_eq!(idle.supervision_timeout, interactive.supervision_timeout);
    }
}

#[test]
fn configuration_sessions_run_without_latency() {
    let features = features();
    let mut state = ConnParamsState::WarmUp;
    let mut updates = Vec::new();
    let mut waits = 0;
    for _ in 0..12 {
        let active = match state.action(&features) {
            ConnParamsAction::Update(params) => {
                updates.push((params.max_connection_interval, params.max_latency));
                false
            }
            ConnParamsAction::AwaitActivityFor(secs) => {
                assert_eq!(secs, 30);
                waits += 1;
                waits == 1
            }
            ConnParamsAction::Pause(secs) => {
                assert_eq!(secs, 5);
                false
            }
            _ => false,
        };
        state = state.next(active, &features);
    }
    assert_eq!(&updates[..4], &[(15_000, 30), (7_500, 30), (7_500, 0), (7_500, 30)]);
}

#[test]
fn zero_latency_links_have_no_sessions() {
    for features in [Features { ble_zero_latency: true, ..features() }, Features { host: false, ..features() }] {
        let state = ConnParamsState::Fast.next(false, &features);
        assert_eq!(state, ConnParamsState::Parked);
        assert_eq!(state.action(&features), ConnParamsAction::Park);
        assert_eq!(state.next(true, &features), ConnParamsState::Parked);
    }
}

#[test]
fn advertising_mode_snapshot_tracks_latest_state() {
    let mut state = ConnectionState::new();

    state.set_ble_advertising_mode(BleAdvertisingMode::Pairing);
    assert_eq!(state.advertising_mode, BleAdvertisingMode::Pairing);

    state.set_ble_advertising_mode(BleAdvertisingMode::Reconnecting);
    assert_eq!(state.advertising_mode, BleAdvertisingMode::Reconnecting);
}

#[test]
fn cached_battery_level_is_seeded_into_gatt_server() {
    let mut level = 0u8;

    seed_battery_level(
        &mut level,
        BatteryStatus::Available { charge_state: ChargeState::Discharging, level: Some(87) },
    );
    assert_eq!(level, 87);

    seed_battery_level(&mut level, BatteryStatus::Unavailable);
    assert_eq!(level, 87);

    seed_battery_level(
        &mut level,
        BatteryStatus::Available { charge_state: ChargeState::Discharging, level: Some(0) },
    );
    assert_eq!(level, 0);
}

#[test]
fn current_local_battery_percent_uses_cached_adc_measurement() {
    let mut battery = LocalBattery::new();
    assert_eq!(battery.current_local_battery_percent(), None);

    battery.set_local_battery_percent(87);

    assert_eq!(battery.current_local_battery_percent(), Some(87));

    battery.set_local_battery_percent(0);

    assert_eq!(battery.current_local_battery_percent(), Some(0));
}

#[test]
fn set_ble_state_preserves_current_profile() {
    let mut state = ConnectionState::new();

    state.set_ble_profile(2);
    state.set_ble_state(BleState::Advertising);

    assert_eq!(state.status, BleStatus { profile: 2, state: BleState::Advertising });
}

#[test]
fn set_ble_profile_resets_state_when_profile_changes() {
    let mut state = ConnectionState::new();

    state.set_ble_profile(1);
    state.set_ble_state(BleState::Connected);
    state.set_ble_profile(3);

    assert_eq!(state.status, BleStatus { profile: 3, state: BleState::Inactive });

    state.set_ble_state(BleState::Connected);
    state.set_ble_profile(3);
    assert_eq!(state.status.state, BleState::Connected);
}

#[test]
fn bonded_profiles_advertise_to_their_host_only() {
    let timeouts = AdvertisingTimeouts { reconnect_secs: 300, pairing_secs: 60 };
    let high_duty = AdvertisingPhase::DirectedHighDuty { window_ms: 1_300 };
    let slow = AdvertisingPhase::Directed { window_ms: 298_700 };
    assert_eq!(advertise_first(true, &timeouts), AdvertisingStep::Advertise(high_duty));
    assert_eq!(
        advertise_next(high_duty, AdvertisingOutcome::WindowElapsed, &timeouts),
        AdvertisingStep::Advertise(slow)
    );
    assert_eq!(
        advertise_next(high_duty, AdvertisingOutcome::Failed(HostError::Timeout), &timeouts),
        AdvertisingStep::Advertise(slow)
    );
    assert_eq!(
        advertise_next(high_duty, AdvertisingOutcome::Failed(HostError::Hci(0x0c)), &timeouts),
        AdvertisingStep::Fail(HostError::Hci(0x0c))
    );
    assert_eq!(
        advertise_next(high_duty, AdvertisingOutcome::Broken(HostError::Timeout), &timeouts),
        AdvertisingStep::Fail(HostError::Timeout)
    );
    assert_eq!(
        advertise_next(slow, AdvertisingOutcome::WindowElapsed, &timeouts),
        AdvertisingStep::Fail(HostError::Timeout)
    );
    assert_eq!(advertise_next(slow, AdvertisingOutcome::Connected, &timeouts), AdvertisingStep::Connected);
    assert_eq!(advertising_interval_ms(high_duty), 30);
    assert_eq!(advertising_interval_ms(slow), 200);
}

#[test]
fn unbonded_profiles_advertise_fast_then_slow() {
    let timeouts = AdvertisingTimeouts { reconnect_secs: 300, pairing_secs: 60 };
    let fast = AdvertisingPhase::FastUndirected { window_secs: 30 };
    let slow = AdvertisingPhase::SlowUndirected { window_secs: 30 };
    assert_eq!(advertise_first(false, &timeouts), AdvertisingStep::Advertise(fast));
    assert_eq!(
        advertise_next(fast, AdvertisingOutcome::WindowElapsed, &timeouts),
        AdvertisingStep::Advertise(slow)
    );
    assert_eq!(
        advertise_next(fast, AdvertisingOutcome::Failed(HostError::Timeout), &timeouts),
        AdvertisingStep::Fail(HostError::Timeout)
    );
    assert_eq!(
        advertise_next(slow, AdvertisingOutcome::WindowElapsed, &timeouts),
        AdvertisingStep::Fail(HostError::Timeout)
    );
    let short = AdvertisingTimeouts { reconnect_secs: 300, pairing_secs: 20 };
    assert_eq!(
        advertise_next(fast, AdvertisingOutcome::WindowElapsed, &short),
        AdvertisingStep::Fail(HostError::Timeout)
    );
    let never = AdvertisingTimeouts { reconnect_secs: 0, pairing_secs: 0 };
    assert_eq!(advertise_first(false, &never), AdvertisingStep::Fail(HostError::Timeout));
    assert_eq!(advertise_first(true, &never), AdvertisingStep::Fail(HostError::Timeout));
    assert_eq!(advertising_interval_ms(fast), 30);
    assert_eq!(advertising_interval_ms(slow), 200);
}

#[test]
fn advertising_data_names_services_and_device() {
    let timeouts = AdvertisingTimeouts { reconnect_secs: 300, pairing_secs: 60 };
    let plan = advertise("K:04", false, &timeouts).unwrap();
    let mut expected = [0u8; 31];
    let battery = trouble_host::prelude::service::BATTERY.to_le_bytes();
    let hid = trouble_host::prelude::service::HUMAN_INTERFACE_DEVICE.to_le_bytes();
    let keyboard = trouble_host::prelude::appearance::human_interface_device::KEYBOARD.to_le_bytes();
    let used = [
        2, 0x01, 0x06, 5, 0x03, battery[0], battery[1], hid[0], hid[1], 5, 0x09, b'K', b':', b'0', b'4', 3, 0x19,
        keyboard[0], keyboard[1],
    ];
    expected[..used.len()].copy_from_slice(&used);
    assert_eq!(plan.data, expected);
    assert_eq!(plan.mode, BleAdvertisingMode::Pairing);
    assert_eq!(plan.first, advertise_first(false, &timeouts));
}

#[test]
fn names_of_up_to_sixteen_bytes_can_be_advertised() {
    let timeouts = AdvertisingTimeouts { reconnect_secs: 300, pairing_secs: 60 };
    assert!(advertise("0123456789abcdef", true, &timeouts).is_ok());
    assert!(matches!(advertise("0123456789abcdefg", true, &timeouts), Err(HostError::InsufficientSpace)));
    // Eight characters of two bytes each.
    assert!(advertise("éééééééé", true, &timeouts).is_ok());
    assert!(advertise("ééééééééé", true, &timeouts).is_err());
}

#[test]
fn queued_motion_is_written_as_one_run() {
    let config = WriterConfig { zero_latency: false, channel_size: 16 };
    let (state, action) = start();
    assert!(matches!(action, WriterAction::Receive));
    let (state, action) = step(state, WriterEvent::Received(Report::MouseReport(mouse(0, 100, 1, 0, 0))), &config);
    assert!(matches!(action, WriterAction::TryReceive));
    let (state, action) = step(state, WriterEvent::Received(Report::MouseReport(mouse(0, 100, 1, 0, 0))), &config);
    assert!(matches!(action, WriterAction::TryReceive));
    // A click ends the run and comes next.
    let (state, action) = step(state, WriterEvent::Received(Report::MouseReport(mouse(1, 0, 0, 0, 0))), &config);
    assert!(matches!(action, WriterAction::Write(Report::MouseReport(m)) if m == mouse(0, 127, 2, 0, 0)));
    let (state, action) = step(state, WriterEvent::Written(true), &config);
    assert!(matches!(action, WriterAction::Write(Report::MouseReport(m)) if m == mouse(0, 73, 0, 0, 0)));
    let (state, action) = step(state, WriterEvent::Written(true), &config);
    assert!(matches!(action, WriterAction::Write(Report::MouseReport(m)) if m == mouse(1, 0, 0, 0, 0)));
    let (state, action) = step(state, WriterEvent::Written(true), &config);
    assert!(matches!(state, WriterState::Idle));
    assert!(matches!(action, WriterAction::Receive));
}

#[test]
fn zero_latency_links_hold_motion_back() {
    let config = WriterConfig { zero_latency: true, channel_size: 16 };
    let (state, _) = start();
    let (state, action) = step(state, WriterEvent::Received(Report::MouseReport(mouse(0, 5, 0, 0, 0))), &config);
    assert!(matches!(action, WriterAction::ReceiveBeforeDeadline));
    let (state, action) = step(state, WriterEvent::DeadlineReached, &config);
    assert!(matches!(action, WriterAction::TryReceive));
    let (state, action) = step(state, WriterEvent::QueueEmpty, &config);
    assert!(matches!(action, WriterAction::Write(Report::MouseReport(m)) if m == mouse(0, 5, 0, 0, 0)));
    let (_, action) = step(state, WriterEvent::Written(true), &config);
    assert!(matches!(action, WriterAction::Receive));
}

#[test]
fn a_failed_write_drops_the_rest_of_a_run() {
    let config = WriterConfig { zero_latency: false, channel_size: 2 };
    let (state, _) = start();
    let (state, _) = step(state, WriterEvent::Received(Report::MouseReport(mouse(0, 127, 0, 0, 0))), &config);
    let (state, action) = step(state, WriterEvent::Received(Report::MouseReport(mouse(0, 127, 0, 0, 0))), &config);
    assert!(matches!(action, WriterAction::Write(Report::MouseReport(m)) if m == mouse(0, 127, 0, 0, 0)));
    let (_, action) = step(state, WriterEvent::Written(false), &config);
    assert!(matches!(action, WriterAction::Receive));
}

#[test]
fn other_reports_are_written_as_they_are() {
    let config = WriterConfig { zero_latency: false, channel_size: 16 };
    let (state, _) = start();
    let (state, action) = step(state, WriterEvent::Received(Report::MediaKeyboardReport(0xe9)), &config);
    assert!(matches!(action, WriterAction::Write(Report::MediaKeyboardReport(0xe9))));
    let (_, action) = step(state, WriterEvent::Written(false), &config);
    assert!(matches!(action, WriterAction::Receive));
}
