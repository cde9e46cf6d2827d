use agrg_shd::error::AgrgErr;
use agrg_shd::settings::{AccessMode, DeviceSettings, PinpadMode, ReaderMode, WorkingMode};

#[test]
fn round_trip_settings() {
    let s = DeviceSettings {
        working_mode: WorkingMode::Controller,
        pinpad_mode: PinpadMode::Wiegand26Dec,
        reader_mode: ReaderMode::Wiegand58,
        access_mode: AccessMode::PinAndCard,
        admin_password: [1, 2, 3, 4, 5, 6],
    };
    let bytes = s.to_bytes();
    assert_eq!(
        bytes,
        vec![0x01, 0x02, 0x03, 0x03, 1, 2, 3, 4, 5, 6, 0xFF, 0xFF, 0xFF, 0xFF, 0xFF, 0xFF]
    );
    let back = DeviceSettings::from_bytes(&bytes).unwrap();
    assert_eq!(back, s);
}

#[test]
fn round_trip_default_modes() {
    let s = DeviceSettings {
        working_mode: WorkingMode::CardReader,
        pinpad_mode: PinpadMode::Wiegand6,
        reader_mode: ReaderMode::Wiegand26,
        access_mode: AccessMode::PinOrCard,
        admin_password: [0, 0, 0, 0, 0, 0],
    };
    let back = DeviceSettings::from_bytes(&s.to_bytes()).unwrap();
    assert_eq!(back, s);
}

#[test]
fn mode_byte_out_of_range_is_rejected() {
    let mut bytes = vec![0u8; 16];
    bytes[0] = 2;
    assert!(matches!(
        DeviceSettings::from_bytes(&bytes),
        Err(AgrgErr::InvalidInput(_))
    ));
    let mut bytes = vec![0u8; 16];
    bytes[1] = 4;
    assert!(matches!(
        DeviceSettings::from_bytes(&bytes),
        Err(AgrgErr::InvalidInput(_))
    ));
    let mut bytes = vec![0u8; 16];
    bytes[2] = 4;
    assert!(matches!(
        DeviceSettings::from_bytes(&bytes),
        Err(AgrgErr::InvalidInput(_))
    ));
    let mut bytes = vec![0u8; 16];
    bytes[3] = 4;
    assert!(matches!(
        DeviceSettings::from_bytes(&bytes),
        Err(AgrgErr::InvalidInput(_))
    ));
}

#[test]
fn wrong_length_is_rejected() {
    assert!(matches!(
        DeviceSettings::from_bytes(&vec![0u8; 15]),
        Err(AgrgErr::InvalidInput(_))
    ));
    assert!(matches!(
        DeviceSettings::from_bytes(&vec![0u8; 17]),
        Err(AgrgErr::InvalidInput(_))
    ));
}

#[test]
fn password_bytes_pass_through_unchecked() {
    // Uninitialized device memory may hold anything there.
    let mut bytes = vec![0u8; 16];
    bytes[4] = 0xFF;
    bytes[9] = 0x42;
    let s = DeviceSettings::from_bytes(&bytes).unwrap();
    assert_eq!(s.admin_password, [0xFF, 0, 0, 0, 0, 0x42]);
}

#[test]
fn error_messages_name_their_kind() {
    assert_eq!(
        AgrgErr::Serial(String::from("port gone")).message(),
        "Serial Error: port gone"
    );
    assert_eq!(AgrgErr::Io(String::from("x")).message(), "IO Error: x");
    assert_eq!(AgrgErr::Parse(String::from("x")).message(), "Parsing Error: x");
    assert_eq!(AgrgErr::InvalidInput(String::from("x")).message(), "Input Error: x");
    assert_eq!(AgrgErr::Csv(String::from("x")).message(), "CSV Error: x");
    assert_eq!(AgrgErr::Hex(String::from("x")).message(), "HEX Error: x");
}
