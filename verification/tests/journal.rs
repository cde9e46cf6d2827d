use agrg_shd::error::AgrgErr;
use agrg_shd::journal::{journal_csv, EventType, JournalEntry};

fn record(ts: [u8; 7], event: u8, user: u8, data: [u8; 7]) -> Vec<u8> {
    let mut bytes = Vec::new();
    bytes.extend_from_slice(&ts);
    bytes.push(event);
    bytes.push(user);
    bytes.extend_from_slice(&data);
    bytes
}

#[test]
fn event_lookup_known_and_unknown() {
    assert_eq!(EventType::from_byte(0x07), EventType::ForcedUnlock);
    assert_eq!(EventType::from_byte(0x07).name(), "Break-in");
    assert_eq!(EventType::from_byte(0x0B), EventType::Custom(0x0B));
    assert_eq!(EventType::from_byte(0x0B).name(), "Unknown(0x0B)");
    assert_eq!(EventType::from_byte(0x00), EventType::PowerOn);
    assert_eq!(EventType::from_byte(0x04), EventType::Custom(0x04));
    assert_eq!(EventType::from_byte(0x0A), EventType::WrongAdminPassword);
}

#[test]
fn event_bytes_round_trip() {
    for b in 0u8..=255 {
        assert_eq!(EventType::from_byte(b).as_byte(), b);
    }
}

#[test]
fn parse_reads_the_fixed_fields() {
    // Timestamp wire order: sec, min, hour, day, reserved, month, year.
    let bytes = record(
        [0x25, 0x30, 0x14, 0x17, 0x00, 0x05, 0x25],
        0x01,
        3,
        [0, 0, 0, 0, 0, 0, 0],
    );
    let e = JournalEntry::parse(&bytes).unwrap();
    assert_eq!(e.timestamp, vec![0x25, 0x30, 0x14, 0x17, 0x00, 0x05, 0x25]);
    assert_eq!(e.event_type, EventType::RegisteredUser);
    assert_eq!(e.user_id, 3);
    assert_eq!(e.data, vec![0u8; 7]);
    assert_eq!(e.timestamp_string(), "2025-05-17 14:30:25");
}

#[test]
fn parse_rejects_wrong_length() {
    assert!(matches!(
        JournalEntry::parse(&vec![0u8; 15]),
        Err(AgrgErr::InvalidInput(_))
    ));
}

#[test]
fn empty_chunk_gives_no_display_row() {
    let e = JournalEntry::parse(&vec![0xFFu8; 16]).unwrap();
    assert!(e.is_empty());
    assert_eq!(e.to_display_row(), None);
}

#[test]
fn any_other_chunk_gives_a_display_row() {
    let mut bytes = vec![0xFFu8; 16];
    bytes[8] = 0x01;
    let e = JournalEntry::parse(&bytes).unwrap();
    assert!(!e.is_empty());
    assert!(e.to_display_row().is_some());
}

#[test]
fn display_row_for_registered_user() {
    let bytes = record(
        [0x25, 0x30, 0x14, 0x17, 0x00, 0x05, 0x25],
        0x01,
        42,
        [0, 0, 0, 0, 0, 0, 0],
    );
    let e = JournalEntry::parse(&bytes).unwrap();
    let (ts, info) = e.to_display_row().unwrap();
    assert_eq!(ts, "2025-05-17 14:30:25");
    assert_eq!(info, "Registered User 42");
}

#[test]
fn display_row_for_unknown_uid_embeds_fragment() {
    let bytes = record(
        [0x00, 0x00, 0x12, 0x01, 0x00, 0x01, 0x25],
        0x02,
        0xAB,
        [0x12, 0x34, 0x56, 0x78, 0x9A, 0xBC, 0xDE],
    );
    let e = JournalEntry::parse(&bytes).unwrap();
    let (_, info) = e.to_display_row().unwrap();
    assert_eq!(info, "Unknown UID AB123456789ABC");
}

#[test]
fn display_row_for_unknown_pin_embeds_fragment() {
    let bytes = record(
        [0x00, 0x00, 0x12, 0x01, 0x00, 0x01, 0x25],
        0x03,
        7,
        [0x12, 0x34, 0x56, 0x78, 0x9A, 0x00, 0x00],
    );
    let e = JournalEntry::parse(&bytes).unwrap();
    let (_, info) = e.to_display_row().unwrap();
    assert_eq!(info, "Unknown PIN 7123456789A");
}

#[test]
fn display_row_for_plain_event_is_just_the_name() {
    let bytes = record(
        [0x00, 0x00, 0x12, 0x01, 0x00, 0x01, 0x25],
        0x08,
        0,
        [0, 0, 0, 0, 0, 0, 0],
    );
    let e = JournalEntry::parse(&bytes).unwrap();
    let (_, info) = e.to_display_row().unwrap();
    assert_eq!(info, "Handle Locked");
}

#[test]
fn garbage_timestamp_renders_as_hex() {
    let e = JournalEntry::parse(&vec![0xFFu8; 16]).unwrap();
    assert_eq!(e.timestamp_string(), "20FF-FF-FF FF:FF:FF");
}

#[test]
fn csv_row_has_all_four_fields() {
    let bytes = record(
        [0x25, 0x30, 0x14, 0x17, 0x00, 0x05, 0x25],
        0x01,
        3,
        [0x01, 0x02, 0x03, 0x04, 0x05, 0x06, 0x07],
    );
    let e = JournalEntry::parse(&bytes).unwrap();
    assert_eq!(
        e.to_csv_row(),
        "2025-05-17 14:30:25,Registered User,3,01020304050607"
    );
}

#[test]
fn csv_serialization_skips_empty_rows() {
    let rows = vec![
        Some((String::from("2025-05-17 14:30:25"), String::from("Power On"))),
        None,
        Some((String::from("2025-05-17 14:31:00"), String::from("Break-in"))),
    ];
    assert_eq!(
        journal_csv(&rows),
        "Timestamp, Data\n2025-05-17 14:30:25,Power On\n2025-05-17 14:31:00,Break-in\n"
    );
}
