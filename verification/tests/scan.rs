use device_link::error::SessionError;
use device_link::reader::StopPoll;
use device_link::scan::{
    record_for, select_adapter, AdvertisementProperties, BleDevice, ScanAction, ScanEvent,
    ScanSession, SCAN_CANCEL_TOPIC, SCAN_EVENT_TOPIC,
};
use std::collections::HashMap;

fn properties() -> AdvertisementProperties {
    let mut manufacturer_data = HashMap::new();
    manufacturer_data.insert(0x004c, vec![0x02, 0x15]);
    AdvertisementProperties {
        local_name: Some("thermo".to_string()),
        rssi: Some(-67),
        manufacturer_data,
        services: vec!["0000180f-0000-1000-8000-00805f9b34fb".to_string()],
        service_data: vec![
            ("0000180f-0000-1000-8000-00805f9b34fb".to_string(), vec![0x64]),
            ("0000fe9f-0000-1000-8000-00805f9b34fb".to_string(), vec![0x01, 0x02, 0x03]),
            ("0000feaa-0000-1000-8000-00805f9b34fb".to_string(), vec![]),
            ("0000fd6f-0000-1000-8000-00805f9b34fb".to_string(), vec![0xff]),
        ],
    }
}

#[test]
fn scan_topics() {
    assert_eq!(SCAN_EVENT_TOPIC, "ble_advertisement_scan_event");
    assert_eq!(SCAN_CANCEL_TOPIC, "stop_ble_advertisement_scan");
}

#[test]
fn a_record_shows_the_properties() {
    let props = properties();
    let device = BleDevice::from_properties("AA:BB:CC:DD:EE:FF".to_string(), props.clone());
    assert_eq!(device.address, "AA:BB:CC:DD:EE:FF");
    assert_eq!(device.local_name, "thermo");
    assert_eq!(device.rssi, -67);
    assert_eq!(device.manufacturer_data, props.manufacturer_data);
    assert_eq!(device.services, props.services);
    assert_eq!(device.service_data, props.service_data);
}

#[test]
fn adv_is_all_service_payloads_joined_in_order() {
    let device = BleDevice::from_properties("x".to_string(), properties());
    assert_eq!(device.adv, vec![0x64, 0x01, 0x02, 0x03, 0xff]);
}

#[test]
fn missing_name_and_signal_strength_read_as_empty_and_zero() {
    let props = AdvertisementProperties {
        local_name: None,
        rssi: None,
        manufacturer_data: HashMap::new(),
        services: Vec::new(),
        service_data: Vec::new(),
    };
    let device = BleDevice::from_properties("11:22:33:44:55:66".to_string(), props);
    assert_eq!(
        device,
        BleDevice {
            address: "11:22:33:44:55:66".to_string(),
            local_name: String::new(),
            rssi: 0,
            manufacturer_data: HashMap::new(),
            services: Vec::new(),
            service_data: Vec::new(),
            adv: Vec::new(),
        }
    );
}

#[test]
fn no_record_without_properties() {
    assert_eq!(record_for("AA:BB".to_string(), None), None);
    let device = record_for("AA:BB".to_string(), Some(properties())).unwrap();
    assert_eq!(device, BleDevice::from_properties("AA:BB".to_string(), properties()));
}

#[test]
fn the_first_adapter_is_selected() {
    assert_eq!(select_adapter(vec!["hci0", "hci1"]), Ok("hci0"));
    assert_eq!(select_adapter(vec![7u8]), Ok(7));
}

#[test]
fn no_adapter_is_a_failure() {
    let err = select_adapter(Vec::<u8>::new()).unwrap_err();
    assert_eq!(err, SessionError::NoAdapter);
    assert_eq!(err.message(), "no bluetooth adapter found");
}

#[test]
fn sightings_of_every_kind_are_resolved() {
    let mut scan = ScanSession::new();
    assert_eq!(scan.on_event(StopPoll::Quiet, ScanEvent::DeviceDiscovered(1)), ScanAction::Resolve(1));
    assert_eq!(
        scan.on_event(StopPoll::Quiet, ScanEvent::ManufacturerDataAdvertisement(2)),
        ScanAction::Resolve(2)
    );
    assert_eq!(
        scan.on_event(StopPoll::Quiet, ScanEvent::ServiceDataAdvertisement(3)),
        ScanAction::Resolve(3)
    );
    assert_eq!(
        scan.on_event(StopPoll::Quiet, ScanEvent::ServicesAdvertisement(4)),
        ScanAction::Resolve(4)
    );
    assert!(!scan.is_cancelled());
}

#[test]
fn connections_and_other_events_give_no_record() {
    let mut scan = ScanSession::new();
    assert_eq!(scan.on_event(StopPoll::Quiet, ScanEvent::DeviceConnected(1)), ScanAction::Skip);
    assert_eq!(scan.on_event(StopPoll::Quiet, ScanEvent::DeviceDisconnected(1)), ScanAction::Skip);
    assert_eq!(scan.on_event(StopPoll::Quiet, ScanEvent::<u8>::Other), ScanAction::Skip);
    assert!(!scan.is_cancelled());
}

#[test]
fn a_cancel_signal_stops_the_scan_before_the_event_is_looked_at() {
    let mut scan = ScanSession::new();
    assert_eq!(scan.on_event(StopPoll::Signalled, ScanEvent::DeviceDiscovered(1)), ScanAction::Stop);
    assert!(scan.is_cancelled());
}

#[test]
fn an_abandoned_cancel_channel_stops_the_scan() {
    let mut scan = ScanSession::new();
    assert_eq!(scan.on_event(StopPoll::Abandoned, ScanEvent::DeviceDiscovered(1)), ScanAction::Stop);
    assert!(scan.is_cancelled());
}

#[test]
fn once_cancelled_every_event_is_answered_with_stop() {
    let mut scan = ScanSession::new();
    assert_eq!(scan.on_event(StopPoll::Signalled, ScanEvent::<u8>::Other), ScanAction::Stop);
    for id in 0u8..5 {
        assert_eq!(scan.on_event(StopPoll::Quiet, ScanEvent::DeviceDiscovered(id)), ScanAction::Stop);
        assert!(scan.is_cancelled());
    }
}

#[test]
fn cancel_after_the_first_event_scenario() {
    // The adapter delivers three sightings; the host cancels after the first.
    let arrivals = [
        (StopPoll::Quiet, ScanEvent::DeviceDiscovered("AA:AA")),
        (StopPoll::Signalled, ScanEvent::DeviceDiscovered("BB:BB")),
        (StopPoll::Quiet, ScanEvent::DeviceDiscovered("CC:CC")),
    ];
    let mut scan = ScanSession::new();
    let mut published: Vec<BleDevice> = Vec::new();
    let mut handled = 0;
    for (poll, event) in arrivals {
        handled += 1;
        match scan.on_event(poll, event) {
            ScanAction::Stop => break,
            ScanAction::Resolve(id) => {
                if let Some(device) = record_for(id.to_string(), Some(properties())) {
                    published.push(device);
                }
            }
            ScanAction::Skip => {}
        }
    }
    assert_eq!(handled, 2);
    assert_eq!(published.len(), 1);
    assert_eq!(published[0].address, "AA:AA");
    assert!(scan.is_cancelled());
}
