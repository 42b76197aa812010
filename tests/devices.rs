use blueman::control::{
    finish, plan, resolve_address, Action, BluetoothError, Command, DeviceState, Status,
};
use blueman::scan::{collect_devices, record_for, DeviceList, Discovered, NameLookup};

const HEADSET: [u8; 6] = [0xAA, 0xBB, 0xCC, 0xDD, 0xEE, 0xFF];

fn named(address: [u8; 6], name: &str) -> Discovered {
    Discovered::Found { address, name: NameLookup::Named(name.to_string()) }
}

#[test]
fn address_text_is_upper_case_colon_hex() {
    let d = record_for(&named(HEADSET, "Headset")).unwrap();
    assert_eq!(d.address, "AA:BB:CC:DD:EE:FF");
    let d = record_for(&named([0, 1, 0x0a, 0x10, 0x7f, 0xff], "Watch")).unwrap();
    assert_eq!(d.address, "00:01:0A:10:7F:FF");
}

#[test]
fn address_text_reads_back() {
    assert_eq!(resolve_address("AA:BB:CC:DD:EE:FF"), Ok(HEADSET));
    assert_eq!(resolve_address("00:01:0A:10:7F:FF"), Ok([0, 1, 0x0a, 0x10, 0x7f, 0xff]));
}

#[test]
fn malformed_address_text_is_rejected() {
    assert_eq!(resolve_address(""), Err(BluetoothError::DeviceNotFound));
    assert_eq!(resolve_address("AA:BB:CC:DD:EE"), Err(BluetoothError::DeviceNotFound));
    assert_eq!(resolve_address("AA:BB:CC:DD:EE:FF:00"), Err(BluetoothError::DeviceNotFound));
    assert_eq!(resolve_address("AA:BB:CC:DD:EE:GG"), Err(BluetoothError::DeviceNotFound));
    assert_eq!(resolve_address("AA:BB:CC:DD:EE:100"), Err(BluetoothError::DeviceNotFound));
}

#[test]
fn only_named_devices_become_records() {
    let items = vec![
        Discovered::Failed,
        named(HEADSET, "Headset"),
        Discovered::Found { address: [1, 2, 3, 4, 5, 6], name: NameLookup::Unnamed },
        Discovered::Found { address: [1, 2, 3, 4, 5, 7], name: NameLookup::Failed },
        named([1, 2, 3, 4, 5, 8], ""),
        named([0x12, 0x34, 0x56, 0x78, 0x9a, 0xbc], "Keyboard"),
    ];
    let devices = collect_devices(&items);
    assert_eq!(devices.len(), 2);
    assert_eq!(devices[0].name, "Headset");
    assert_eq!(devices[0].address, "AA:BB:CC:DD:EE:FF");
    assert_eq!(devices[1].name, "Keyboard");
    assert_eq!(devices[1].address, "12:34:56:78:9A:BC");
    for d in &devices {
        assert!(!d.name.is_empty());
    }
}

#[test]
fn empty_scan_gives_no_records() {
    assert!(collect_devices(&Vec::new()).is_empty());
}

#[test]
fn record_for_single_items() {
    let d = record_for(&named(HEADSET, "Headset")).unwrap();
    assert_eq!(d.name, "Headset");
    assert_eq!(d.address, "AA:BB:CC:DD:EE:FF");
    assert!(record_for(&Discovered::Failed).is_none());
    assert!(record_for(&named(HEADSET, "")).is_none());
}

#[test]
fn second_scan_replaces_the_list() {
    let mut list = DeviceList::new();
    assert_eq!(list.len(), 0);
    list.apply_scan(&vec![named(HEADSET, "Headset"), named([1, 2, 3, 4, 5, 6], "Mouse")]);
    assert_eq!(list.len(), 2);
    list.apply_scan(&vec![named([1, 2, 3, 4, 5, 6], "Mouse"), named([9, 9, 9, 9, 9, 9], "Speaker")]);
    let now = list.to_vec();
    assert_eq!(now.len(), 2);
    assert_eq!(now[0].name, "Mouse");
    assert_eq!(now[0].address, "01:02:03:04:05:06");
    assert_eq!(list.get(1).name, "Speaker");
    assert!(now.iter().all(|d| d.name != "Headset"));
    list.apply_scan(&Vec::new());
    assert_eq!(list.len(), 0);
}

#[test]
fn connect_twice_is_idempotent() {
    assert_eq!(plan(Command::Connect, DeviceState::Disconnected), Ok(Action::Issue(Command::Connect)));
    assert_eq!(finish(Command::Connect, true), Ok(Status::Connected));
    assert_eq!(plan(Command::Connect, DeviceState::Connected), Ok(Action::Report(Status::AlreadyConnected)));
}

#[test]
fn disconnect_twice_is_idempotent() {
    assert_eq!(plan(Command::Disconnect, DeviceState::Connected), Ok(Action::Issue(Command::Disconnect)));
    assert_eq!(finish(Command::Disconnect, true), Ok(Status::Disconnected));
    assert_eq!(
        plan(Command::Disconnect, DeviceState::Disconnected),
        Ok(Action::Report(Status::AlreadyDisconnected))
    );
}

#[test]
fn unknown_device_is_an_error() {
    assert_eq!(plan(Command::Connect, DeviceState::Unknown), Err(BluetoothError::DeviceNotFound));
    assert_eq!(plan(Command::Disconnect, DeviceState::Unknown), Err(BluetoothError::DeviceNotFound));
    assert_eq!(resolve_address("not an address"), Err(BluetoothError::DeviceNotFound));
    assert_eq!(BluetoothError::DeviceNotFound.message(), "Device not found");
}

#[test]
fn refused_command_is_reported() {
    assert_eq!(finish(Command::Connect, false), Err(BluetoothError::OperationRefused));
    assert_eq!(finish(Command::Disconnect, false), Err(BluetoothError::OperationRefused));
    assert_eq!(BluetoothError::OperationRefused.message(), "Operation refused");
    assert_eq!(BluetoothError::AdapterUnavailable.message(), "No Bluetooth adapter available");
}

#[test]
fn headset_scan_connect_and_connect_again() {
    let mut list = DeviceList::new();
    list.apply_scan(&vec![named(HEADSET, "Headset")]);
    assert_eq!(list.len(), 1);
    let device = list.get(0);
    assert_eq!(device.name, "Headset");
    assert_eq!(device.address, "AA:BB:CC:DD:EE:FF");

    let address = resolve_address(&device.address).unwrap();
    assert_eq!(address, HEADSET);

    let first = plan(Command::Connect, DeviceState::Disconnected).unwrap();
    assert_eq!(first, Action::Issue(Command::Connect));
    let status = finish(Command::Connect, true).unwrap();
    assert_eq!(status.message(), "Connected");

    let second = plan(Command::Connect, DeviceState::Connected).unwrap();
    match second {
        Action::Report(s) => assert_eq!(s.message(), "Already connected"),
        Action::Issue(_) => panic!("a connected device got a second connect"),
    }
}

#[test]
fn status_messages() {
    assert_eq!(Status::Disconnected.message(), "Disconnected");
    assert_eq!(Status::AlreadyDisconnected.message(), "Already disconnected");
}
