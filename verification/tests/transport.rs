use rmk::ble::advertise::HostError;
use rmk::ble::transport::{
    BleTransport, DeviceConfig, DeviceText, PnPID, TransportEvent, TransportState, VidSource,
};
use rmk::state::BleState;

fn config<'a>(serial_number: &'a str) -> DeviceConfig<'a> {
    DeviceConfig {
        vid: 0xe126,
        pid: 0x0071,
        manufacturer: "Ergohaven",
        product_name: "K:04",
        serial_number,
    }
}

#[test]
fn transports_describe_the_device() {
    let transport = BleTransport::new::<20, 20>(config("vial:f64c2b3c:000001"));
    assert_eq!(transport.product_name, "K:04");
    assert_eq!(
        transport.pnp_id,
        PnPID { vid_source: VidSource::UsbIF, vendor_id: 0xe126, product_id: 0x0071, product_version: 1 }
    );
    assert_eq!(transport.serial_number.as_str(), "vial:f64c2b3c:000001");
    assert_eq!(transport.manufacturer_name.as_str(), "Ergohaven");
}

#[test]
fn long_serial_numbers_are_cut_between_characters() {
    assert_eq!(BleTransport::new::<20, 20>(config("0123456789012345678901234")).serial_number.as_str(), "01234567890123456789");
    assert_eq!(DeviceText::trimmed::<20>("0123456789012345678é").as_str(), "0123456789012345678");
    assert_eq!(DeviceText::trimmed::<20>("0123456789012345678éx").as_str(), "0123456789012345678");
    assert_eq!(DeviceText::trimmed::<20>("012345678901234567é").as_str(), "012345678901234567é");
    assert_eq!(DeviceText::trimmed::<20>("").as_str(), "");
    assert_eq!(DeviceText::trimmed::<32>("0123456789012345678901234").as_str(), "0123456789012345678901234");
    assert_eq!(DeviceText::trimmed::<0>("x").as_str(), "");
}

#[test]
fn whole_texts_fit_or_are_refused() {
    assert_eq!(DeviceText::try_from_str::<20>("01234567890123456789").unwrap().as_str(), "01234567890123456789");
    assert!(DeviceText::try_from_str::<20>("012345678901234567890").is_none());
    assert!(DeviceText::try_from_str::<21>("012345678901234567890").is_some());
}

#[test]
fn split_keyboards_wait_for_their_halves() {
    let state = TransportState::start(true);
    assert_eq!(state, TransportState::AwaitSplitWindow);
    assert_eq!(TransportState::start(false), TransportState::Advertising);
    let step = state.step(TransportEvent::SplitWindowOpen, true, BleState::Inactive, false);
    assert_eq!(step.state, TransportState::Advertising);
    assert!(!step.set_inactive);
    let step = state.step(TransportEvent::ProfileUpdated { connected: false }, true, BleState::Inactive, false);
    assert_eq!(step.state, TransportState::AwaitSplitWindow);
    assert!(!step.set_inactive);
}

#[test]
fn silence_lets_the_keyboard_sleep_unless_another_host_is_there() {
    let silence = TransportEvent::AdvertisingFailed(HostError::Timeout);
    let step = TransportState::Advertising.step(silence, true, BleState::Advertising, false);
    assert_eq!(step.state, TransportState::Asleep);
    assert!(step.request_sleep && step.set_inactive);
    let step = TransportState::Advertising.step(silence, true, BleState::Advertising, true);
    assert_eq!(step.state, TransportState::AwaitSplitWindow);
    assert!(!step.request_sleep && step.set_inactive);
}

#[test]
fn wake_activity_includes_pointing_events() {
    for event in [TransportEvent::KeyActivity, TransportEvent::PointingActivity] {
        let step = TransportState::Asleep.step(event, false, BleState::Inactive, false);
        assert_eq!(step.state, TransportState::Advertising);
        assert!(step.report_activity);
    }
}

#[test]
fn errors_pause_advertising() {
    let failed = TransportEvent::AdvertisingFailed(HostError::Other);
    let step = TransportState::Advertising.step(failed, false, BleState::Advertising, false);
    assert_eq!(step.state, TransportState::Paused);
    assert!(!step.set_inactive);
    let step = step.state.step(TransportEvent::PauseElapsed, false, BleState::Advertising, false);
    assert_eq!(step.state, TransportState::Advertising);
    assert!(!step.set_inactive);
}

#[test]
fn profile_changes_disconnect_the_host() {
    let connected = TransportEvent::ProfileUpdated { connected: true };
    let step = TransportState::Advertising.step(TransportEvent::Connected, true, BleState::Advertising, false);
    assert_eq!(step.state, TransportState::Serving);
    let step = step.state.step(connected, true, BleState::Connected, false);
    assert_eq!(step.state, TransportState::Disconnecting);
    assert!(!step.set_inactive);
    let step = step.state.step(TransportEvent::Disconnected, true, BleState::Connected, false);
    assert_eq!(step.state, TransportState::AwaitSplitWindow);
    assert!(step.set_inactive);
    let gone = TransportEvent::ProfileUpdated { connected: false };
    let step = TransportState::Serving.step(gone, true, BleState::Connected, false);
    assert_eq!(step.state, TransportState::AwaitSplitWindow);
    assert!(step.set_inactive);
    let step = TransportState::Serving.step(TransportEvent::Ended, false, BleState::Connected, false);
    assert_eq!(step.state, TransportState::Advertising);
    assert!(step.set_inactive);
}
