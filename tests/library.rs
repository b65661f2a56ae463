use aranet::{
    advertises_target, decode, identity_field, read_info, CharacteristicRead, Data, Device,
    DeviceSession, DiscoveryError, Info, InfoField, LinkState, ScanAction, ScanCoordinator,
    ScanPhase, FIRMWARE_REVISION_CHARACTERISTIC, HARDWARE_REVISION_CHARACTERISTIC,
    MANUFACTURER_NAME_CHARACTERISTIC, MODEL_NUMBER_CHARACTERISTIC, SENSOR_CHARACTERISTIC,
    SERIAL_NUMBER_CHARACTERISTIC, SOFTWARE_REVISION_CHARACTERISTIC, TARGET_SERVICE,
};

const OTHER_SERVICE: u128 = 0x0000180a_0000_1000_8000_00805f9b34fb;
const OTHER_CHARACTERISTIC: u128 = 0x00002a00_0000_1000_8000_00805f9b34fb;

fn read(uuid: u128, value: Option<&[u8]>) -> CharacteristicRead {
    CharacteristicRead { uuid, value: value.map(|v| v.to_vec()) }
}

fn sample_device(name: &str, last_address_byte: u8) -> Device {
    Device {
        name: name.to_string(),
        address: [0xaa, 0xbb, 0xcc, 0xdd, 0xee, last_address_byte],
        data: decode(&[244, 1, 200, 0, 200, 0, 45, 80]).unwrap(),
        info: Info::new(),
    }
}

fn listening(max_devices: Option<usize>, timeout_ms: u64) -> ScanCoordinator {
    let mut c = ScanCoordinator::new(max_devices, timeout_ms);
    assert_eq!(c.begin(), ScanAction::StartScan);
    assert_eq!(c.scan_started(Ok(())), ScanAction::AwaitEvent(timeout_ms));
    c
}

#[test]
fn decode_example_reading() {
    let d = decode(&[244, 1, 200, 0, 200, 0, 45, 80]).unwrap();
    assert_eq!(d.co2, 500);
    assert_eq!(d.temperature_twentieths, 200);
    assert_eq!(d.pressure_tenths, 200);
    assert_eq!(d.humidity, 45);
    assert_eq!(d.battery, 80);
    assert_eq!(d.temperature_twentieths as f32 / 20.0, 10.0);
    assert_eq!(d.pressure_tenths as f32 / 10.0, 20.0);
}

#[test]
fn decode_all_zero_reading() {
    let d = decode(&[0, 0, 0, 0, 0, 0, 0, 0]).unwrap();
    assert_eq!(
        d,
        Data { co2: 0, temperature_twentieths: 0, pressure_tenths: 0, humidity: 0, battery: 0 }
    );
}

#[test]
fn decode_seven_bytes_is_malformed() {
    assert_eq!(decode(&[244, 1, 200, 0, 200, 0, 45]), Err(DiscoveryError::MalformedPayload));
    assert_eq!(decode(&[]), Err(DiscoveryError::MalformedPayload));
}

#[test]
fn decode_exactly_eight_bytes_succeeds() {
    assert!(decode(&[1, 0, 0, 0, 0, 0, 0, 0]).is_ok());
}

#[test]
fn decode_ignores_trailing_bytes_and_keeps_extremes() {
    let d = decode(&[255, 255, 255, 255, 255, 255, 255, 255, 9, 9]).unwrap();
    assert_eq!(d.co2, 65535);
    assert_eq!(d.temperature_twentieths, 65535);
    assert_eq!(d.pressure_tenths, 65535);
    assert_eq!(d.humidity, 255);
    assert_eq!(d.battery, 255);
}

#[test]
fn identity_field_maps_the_six_characteristics() {
    assert_eq!(identity_field(MODEL_NUMBER_CHARACTERISTIC), Some(InfoField::ModelNumber));
    assert_eq!(identity_field(SERIAL_NUMBER_CHARACTERISTIC), Some(InfoField::SerialNumber));
    assert_eq!(identity_field(FIRMWARE_REVISION_CHARACTERISTIC), Some(InfoField::FirmwareRevision));
    assert_eq!(identity_field(HARDWARE_REVISION_CHARACTERISTIC), Some(InfoField::HardwareRevision));
    assert_eq!(identity_field(SOFTWARE_REVISION_CHARACTERISTIC), Some(InfoField::SoftwareRevision));
    assert_eq!(identity_field(MANUFACTURER_NAME_CHARACTERISTIC), Some(InfoField::ManufacturerName));
    assert_eq!(identity_field(SENSOR_CHARACTERISTIC), None);
}

#[test]
fn advertises_target_checks_membership() {
    assert!(advertises_target(&vec![OTHER_SERVICE, TARGET_SERVICE]));
    assert!(!advertises_target(&vec![OTHER_SERVICE]));
    assert!(!advertises_target(&vec![]));
}

#[test]
fn info_with_two_of_six_present() {
    let info = read_info(&vec![
        read(SERIAL_NUMBER_CHARACTERISTIC, Some(b"123456")),
        read(SENSOR_CHARACTERISTIC, Some(&[1, 2, 3])),
        read(MANUFACTURER_NAME_CHARACTERISTIC, Some(b"SAF Tehnika")),
    ]);
    assert_eq!(info.serial_number.as_deref(), Some("123456"));
    assert_eq!(info.manufacturer_name.as_deref(), Some("SAF Tehnika"));
    assert_eq!(info.model_number, None);
    assert_eq!(info.firmware_revision, None);
    assert_eq!(info.hardware_revision, None);
    assert_eq!(info.software_revision, None);
}

#[test]
fn info_failed_read_leaves_field_unset() {
    let info = read_info(&vec![
        read(MODEL_NUMBER_CHARACTERISTIC, None),
        read(FIRMWARE_REVISION_CHARACTERISTIC, Some(b"v1.2.0")),
    ]);
    assert_eq!(info.model_number, None);
    assert_eq!(info.firmware_revision.as_deref(), Some("v1.2.0"));
}

#[test]
fn info_decodes_invalid_bytes_lossily() {
    let info = read_info(&vec![read(HARDWARE_REVISION_CHARACTERISTIC, Some(&[b'A', 0xff, b'B']))]);
    assert_eq!(info.hardware_revision.as_deref(), Some("A\u{FFFD}B"));
}

#[test]
fn info_empty_reads_give_empty_info() {
    let info = read_info(&vec![]);
    assert!(info.model_number.is_none() && info.serial_number.is_none());
    assert!(info.software_revision.is_none() && info.manufacturer_name.is_none());
}

#[test]
fn session_full_sequence() {
    let address = [1, 2, 3, 4, 5, 6];
    let mut s = DeviceSession::new(address);
    assert_eq!(s.connected(true), Ok(()));
    assert_eq!(s.state, LinkState::Connected);
    let chars = vec![
        OTHER_CHARACTERISTIC,
        MODEL_NUMBER_CHARACTERISTIC,
        SENSOR_CHARACTERISTIC,
        SOFTWARE_REVISION_CHARACTERISTIC,
    ];
    assert_eq!(s.services_discovered(Some(chars)), Ok(()));
    assert_eq!(s.state, LinkState::ServicesDiscovered);
    assert_eq!(s.name_read(Some("Aranet4 1A2B3".to_string())), Ok(2));
    assert_eq!(s.payload_read(Some(vec![244, 1, 200, 0, 200, 0, 45, 80])), Ok(vec![1, 3]));
    let d = s
        .identity_read(&vec![
            read(MODEL_NUMBER_CHARACTERISTIC, Some(b"Aranet4")),
            read(SOFTWARE_REVISION_CHARACTERISTIC, Some(b"1.4.14")),
        ])
        .unwrap();
    assert_eq!(s.state, LinkState::Closed);
    assert_eq!(d.name, "Aranet4 1A2B3");
    assert_eq!(d.address, address);
    assert_eq!(d.data.co2, 500);
    assert_eq!(d.info.model_number.as_deref(), Some("Aranet4"));
    assert_eq!(d.info.software_revision.as_deref(), Some("1.4.14"));
    assert_eq!(d.info.serial_number, None);
}

#[test]
fn session_connection_failure() {
    let mut s = DeviceSession::new([0; 6]);
    assert_eq!(s.connected(false), Err(DiscoveryError::ConnectionFailure));
    assert_eq!(s.state, LinkState::Closed);
}

#[test]
fn session_service_discovery_failure() {
    let mut s = DeviceSession::new([0; 6]);
    s.connected(true).unwrap();
    assert_eq!(s.services_discovered(None), Err(DiscoveryError::ServiceDiscoveryFailure));
    assert_eq!(s.state, LinkState::Closed);
}

#[test]
fn session_missing_name() {
    let mut s = DeviceSession::new([0; 6]);
    s.connected(true).unwrap();
    s.services_discovered(Some(vec![SENSOR_CHARACTERISTIC])).unwrap();
    assert_eq!(s.name_read(None), Err(DiscoveryError::MissingName));
    assert_eq!(s.state, LinkState::Closed);
}

#[test]
fn session_missing_sensor_characteristic() {
    let mut s = DeviceSession::new([0; 6]);
    s.connected(true).unwrap();
    s.services_discovered(Some(vec![MODEL_NUMBER_CHARACTERISTIC])).unwrap();
    assert_eq!(s.name_read(Some("x".to_string())), Err(DiscoveryError::MalformedPayload));
}

#[test]
fn session_short_or_unreadable_payload() {
    let mut s = DeviceSession::new([0; 6]);
    s.connected(true).unwrap();
    s.services_discovered(Some(vec![SENSOR_CHARACTERISTIC])).unwrap();
    assert_eq!(s.name_read(Some("x".to_string())), Ok(0));
    assert_eq!(s.payload_read(Some(vec![1, 2, 3, 4, 5, 6, 7])), Err(DiscoveryError::MalformedPayload));
    assert_eq!(s.state, LinkState::Closed);

    let mut t = DeviceSession::new([0; 6]);
    t.connected(true).unwrap();
    t.services_discovered(Some(vec![SENSOR_CHARACTERISTIC])).unwrap();
    t.name_read(Some("x".to_string())).unwrap();
    assert_eq!(t.payload_read(None), Err(DiscoveryError::MalformedPayload));
}

#[test]
fn session_rejects_reads_before_service_discovery() {
    let mut s = DeviceSession::new([0; 6]);
    assert_eq!(s.name_read(Some("x".to_string())), Err(DiscoveryError::InvalidState));
    s.connected(true).unwrap();
    assert_eq!(s.payload_read(Some(vec![0; 8])), Err(DiscoveryError::InvalidState));
    assert!(matches!(s.identity_read(&vec![]), Err(DiscoveryError::InvalidState)));
    assert_eq!(s.connected(true), Err(DiscoveryError::InvalidState));
    assert_eq!(s.state, LinkState::Connected);
}

#[test]
fn scan_zero_limit_finishes_without_scanning() {
    let mut c = ScanCoordinator::new(Some(0), 10_000);
    assert_eq!(c.begin(), ScanAction::Finish);
    assert_eq!(c.phase, ScanPhase::Finished);
    assert_eq!(c.outcome().unwrap().len(), 0);
}

#[test]
fn scan_deadline_ends_the_pass() {
    let mut c = listening(None, 10_000);
    assert_eq!(c.other_event(4_000), ScanAction::AwaitEvent(6_000));
    assert_eq!(c.device_discovered(10_000, &vec![TARGET_SERVICE]), ScanAction::StopScan);
    assert_eq!(c.scan_stopped(), ScanAction::Finish);
    assert_eq!(c.outcome().unwrap().len(), 0);
}

#[test]
fn scan_wait_expiry_is_normal_termination() {
    let mut c = listening(None, 1_000);
    assert_eq!(c.wait_ended(), ScanAction::StopScan);
    assert_eq!(c.scan_stopped(), ScanAction::Finish);
    assert!(c.outcome().is_ok());
}

#[test]
fn scan_zero_timeout_stops_right_after_start() {
    let mut c = ScanCoordinator::new(None, 0);
    c.begin();
    assert_eq!(c.scan_started(Ok(())), ScanAction::StopScan);
}

#[test]
fn scan_late_session_does_not_wait_again() {
    let mut c = listening(None, 1_000);
    assert_eq!(c.device_discovered(900, &vec![TARGET_SERVICE]), ScanAction::FetchDevice);
    assert_eq!(c.device_fetched(5_000, Ok(sample_device("a", 1))), ScanAction::StopScan);
    assert_eq!(c.devices.len(), 1);
}

#[test]
fn scan_excludes_device_without_target_service() {
    let mut c = listening(None, 10_000);
    assert_eq!(c.device_discovered(100, &vec![OTHER_SERVICE]), ScanAction::AwaitEvent(9_900));
    assert_eq!(c.devices.len(), 0);
    assert_eq!(c.phase, ScanPhase::Listening);
}

#[test]
fn scan_keeps_acceptance_order() {
    let mut c = listening(None, 10_000);
    assert_eq!(c.device_discovered(100, &vec![TARGET_SERVICE]), ScanAction::FetchDevice);
    assert_eq!(c.device_fetched(200, Ok(sample_device("second-address", 0xf0))), ScanAction::AwaitEvent(9_800));
    assert_eq!(c.device_discovered(300, &vec![OTHER_SERVICE, TARGET_SERVICE]), ScanAction::FetchDevice);
    assert_eq!(c.device_fetched(400, Ok(sample_device("first-address", 0x01))), ScanAction::AwaitEvent(9_600));
    assert_eq!(c.wait_ended(), ScanAction::StopScan);
    c.scan_stopped();
    let devices = c.outcome().unwrap();
    let names: Vec<&str> = devices.iter().map(|d| d.name.as_str()).collect();
    assert_eq!(names, vec!["second-address", "first-address"]);
}

#[test]
fn scan_device_limit_stops_before_waiting() {
    let mut c = listening(Some(1), 10_000);
    c.device_discovered(100, &vec![TARGET_SERVICE]);
    assert_eq!(c.device_fetched(200, Ok(sample_device("a", 1))), ScanAction::StopScan);
    assert_eq!(c.phase, ScanPhase::Stopping);
}

#[test]
fn scan_session_failure_aborts_the_pass() {
    let mut c = listening(None, 10_000);
    c.device_discovered(100, &vec![TARGET_SERVICE]);
    c.device_fetched(200, Ok(sample_device("a", 1)));
    c.device_discovered(300, &vec![TARGET_SERVICE]);
    assert_eq!(c.device_fetched(400, Err(DiscoveryError::ConnectionFailure)), ScanAction::StopScan);
    assert_eq!(c.scan_stopped(), ScanAction::Finish);
    assert!(matches!(c.outcome(), Err(DiscoveryError::ConnectionFailure)));
}

#[test]
fn scan_adapter_unavailable() {
    let mut c = ScanCoordinator::new(None, 10_000);
    c.begin();
    assert_eq!(c.scan_started(Err(DiscoveryError::AdapterUnavailable)), ScanAction::Finish);
    assert!(matches!(c.outcome(), Err(DiscoveryError::AdapterUnavailable)));
}

#[test]
fn scan_start_failure() {
    let mut c = ScanCoordinator::new(Some(3), 10_000);
    c.begin();
    assert_eq!(c.scan_started(Err(DiscoveryError::ScanStartFailure)), ScanAction::Finish);
    assert!(matches!(c.outcome(), Err(DiscoveryError::ScanStartFailure)));
}
