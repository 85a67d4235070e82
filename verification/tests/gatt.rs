use rmk::ble::bond::{
    bonded_profile, cccd_restore, restore_subscriptions, CccdRestore, CccdTable, PeerIdentity,
};
use rmk::ble::gatt::{
    on_connection_event, BleHostTransport, ConnectionEffect, ConnectionEvent, GattHandles, GattReply, GattRequest,
    GattWrite, HostHandles, PasskeyEntry, INSUFFICIENT_ENCRYPTION,
};

fn handles() -> GattHandles {
    GattHandles {
        battery_level_cccd: 10,
        output_keyboard: 20,
        hid_control_point: 21,
        input_keyboard_cccd: 22,
        mouse_cccd: 23,
        media_cccd: 24,
        system_cccd: 25,
        host: Some(HostHandles { hid_output: 30, hid_input_cccd: 31, gatt_output: 32, gatt_input_cccd: 33 }),
    }
}

fn identity(addr: [u8; 6], irk: u128) -> PeerIdentity {
    PeerIdentity { kind: 1, addr, irk }
}

#[test]
fn led_writes_have_one_byte() {
    assert!(matches!(handles().classify_write(20, &[0x02]), GattWrite::Led(0x02)));
    assert!(matches!(handles().classify_write(20, &[]), GattWrite::Malformed));
    assert!(matches!(handles().classify_write(20, &[1, 2]), GattWrite::Malformed));
}

#[test]
fn subscriptions_are_recognised() {
    for handle in [10, 22, 23, 24, 25, 31, 33] {
        assert!(matches!(handles().classify_write(handle, &[1, 0]), GattWrite::Cccd));
    }
    let without_host = GattHandles { host: None, ..handles() };
    assert!(matches!(without_host.classify_write(31, &[1, 0]), GattWrite::Unknown));
    assert!(matches!(handles().classify_write(99, &[1, 0]), GattWrite::Unknown));
}

#[test]
fn control_point_suspends_and_resumes() {
    assert!(matches!(handles().classify_write(21, &[0]), GattWrite::Suspend));
    assert!(matches!(handles().classify_write(21, &[1]), GattWrite::Resume));
    assert!(matches!(handles().classify_write(21, &[2]), GattWrite::Malformed));
    assert!(matches!(handles().classify_write(21, &[0, 0]), GattWrite::Malformed));
}

#[test]
fn host_packets_have_thirty_two_bytes() {
    let mut sent = [0u8; 32];
    sent[0] = 0xfe;
    sent[31] = 7;
    match handles().classify_write(32, &sent) {
        GattWrite::HostPacket { transport, packet } => {
            assert_eq!(transport, BleHostTransport::VendorGatt);
            assert_eq!(packet, sent);
        }
        other => panic!("unexpected {:?}", other),
    }
    assert!(matches!(
        handles().classify_write(30, &sent),
        GattWrite::HostPacket { transport: BleHostTransport::Hid, .. }
    ));
    assert!(matches!(handles().classify_write(30, &sent[..31]), GattWrite::Malformed));
}

#[test]
fn attributes_need_an_encrypted_link() {
    let read = GattRequest::Read { handle: 10 };
    assert_eq!(handles().on_gatt_request(read, Some(true)).reply, GattReply::Accept);
    assert_eq!(
        handles().on_gatt_request(read, Some(false)).reply,
        GattReply::Reject(INSUFFICIENT_ENCRYPTION)
    );
    assert_eq!(handles().on_gatt_request(read, None).reply, GattReply::End);
    assert_eq!(handles().on_gatt_request(GattRequest::Other, Some(false)).reply, GattReply::Accept);
    assert_eq!(handles().on_gatt_request(GattRequest::NotAllowed, None).reply, GattReply::Accept);
    assert_eq!(INSUFFICIENT_ENCRYPTION, 0x0f);
}

#[test]
fn subscriptions_are_saved_after_the_answer() {
    let write = GattRequest::Write { handle: 22, data: &[1, 0] };
    assert!(handles().on_gatt_request(write, Some(true)).cccd_updated);
    assert!(handles().on_gatt_request(write, Some(false)).cccd_updated);
    assert!(!handles().on_gatt_request(write, None).cccd_updated);
    let led = GattRequest::Write { handle: 20, data: &[1] };
    let reaction = handles().on_gatt_request(led, Some(true));
    assert!(!reaction.cccd_updated);
    assert!(matches!(reaction.write, Some(GattWrite::Led(1))));
}

#[test]
fn connection_events_have_their_effects() {
    let effect = |event, passkey| on_connection_event(event, passkey).effect;
    let absent = PasskeyEntry::Absent;
    assert_eq!(effect(ConnectionEvent::Disconnected, absent), ConnectionEffect::End);
    assert_eq!(
        effect(ConnectionEvent::PairingComplete { bonded: true }, absent),
        ConnectionEffect::SaveBond
    );
    assert_eq!(
        effect(ConnectionEvent::PairingComplete { bonded: false }, absent),
        ConnectionEffect::Nothing
    );
    assert_eq!(effect(ConnectionEvent::Encrypted, absent), ConnectionEffect::Connected);
    assert_eq!(effect(ConnectionEvent::PassKeyInput, absent), ConnectionEffect::Nothing);
    assert_eq!(
        effect(ConnectionEvent::PassKeyInput, PasskeyEntry::Disabled),
        ConnectionEffect::CancelPasskey
    );
    assert_eq!(
        effect(ConnectionEvent::PassKeyInput, PasskeyEntry::Enabled),
        ConnectionEffect::BeginPasskey
    );
    assert_eq!(effect(ConnectionEvent::Notice, absent), ConnectionEffect::Nothing);
    assert!(on_connection_event(ConnectionEvent::PairingFailed, PasskeyEntry::Enabled).clear_passkey);
    assert!(!on_connection_event(ConnectionEvent::PairingFailed, absent).clear_passkey);
    assert!(!on_connection_event(ConnectionEvent::Encrypted, PasskeyEntry::Enabled).clear_passkey);
}

#[test]
fn bonds_keep_tables_that_fit() {
    let table = [1u8, 2, 3];
    let profile = bonded_profile::<3>(2, identity([1; 6], 0), Some(&table));
    assert_eq!(profile.slot_num, 2);
    assert!(!profile.removed);
    assert_eq!(profile.cccd_table.as_raw(), &table);
    let long = [9u8; 65];
    assert_eq!(bonded_profile::<64>(2, identity([1; 6], 0), Some(&long)).cccd_table.as_raw().len(), 0);
    assert_eq!(bonded_profile::<65>(2, identity([1; 6], 0), Some(&long)).cccd_table.as_raw(), &long);
    assert_eq!(bonded_profile::<64>(2, identity([1; 6], 0), None).cccd_table.as_raw().len(), 0);
    assert!(CccdTable::from_raw::<64>(&long).is_none());
    assert_eq!(CccdTable::from_raw::<64>(&long[..64]).unwrap().as_raw().len(), 64);
}

#[test]
fn subscriptions_return_to_their_host() {
    // One attribute, handle 3, with two bytes of value.
    let table = [1u8, 0, 2, 0, 3, 0, 0, 0, 1, 0];
    let profile = bonded_profile::<64>(0, identity([1, 2, 3, 4, 5, 6], 77), Some(&table));
    assert_eq!(
        restore_subscriptions(Some(&profile), &identity([1, 2, 3, 4, 5, 6], 0)),
        CccdRestore::Restore
    );
    assert_eq!(
        restore_subscriptions(Some(&profile), &identity([9, 9, 9, 9, 9, 9], 77)),
        CccdRestore::Restore
    );
    assert_eq!(
        restore_subscriptions(Some(&profile), &identity([9, 9, 9, 9, 9, 9], 0)),
        CccdRestore::NotBonded
    );
    assert_eq!(restore_subscriptions(None, &identity([9; 6], 0)), CccdRestore::NotBonded);
}

#[test]
fn broken_tables_are_not_restored() {
    let host = identity([1, 2, 3, 4, 5, 6], 0);
    for raw in [&[][..], &[1u8, 0, 2][..], &[1u8, 0, 2, 0][..], &[1u8, 0, 2, 0, 0, 0, 0, 0, 1, 0][..]] {
        let profile = bonded_profile::<64>(0, host, Some(raw));
        assert_eq!(restore_subscriptions(Some(&profile), &host), CccdRestore::Invalid);
    }
}

#[test]
fn restoring_needs_a_match_and_a_table() {
    assert_eq!(cccd_restore(true, true), CccdRestore::Restore);
    assert_eq!(cccd_restore(true, false), CccdRestore::Invalid);
    assert_eq!(cccd_restore(false, true), CccdRestore::NotBonded);
    assert_eq!(cccd_restore(false, false), CccdRestore::NotBonded);
}
