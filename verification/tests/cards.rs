use agrg_shd::cards::{pin_to_bytes, rfid_to_bytes, Card};
use agrg_shd::error::AgrgErr;

#[test]
fn decode_known_record() {
    // 12 31 F3 23 FF FF FF FF FF FF | 01 03 05 07 09 00
    let bytes: Vec<u8> = vec![
        0x12, 0x31, 0xF3, 0x23, 0xFF, 0xFF, 0xFF, 0xFF, 0xFF, 0xFF, 0x01, 0x03, 0x05, 0x07, 0x09,
        0x00,
    ];
    let card = Card::from_bytes(&bytes).unwrap();
    assert_eq!(card.uid, "1231f323");
    assert_eq!(card.pin, "135790");
    // Re-encoding a decoded record reproduces its bytes exactly.
    assert_eq!(card.to_bytes().unwrap(), bytes);
}

#[test]
fn round_trip_full_card() {
    let card = Card::new(String::from("1231f323aabbccddee42"), String::from("135790")).unwrap();
    let bytes = card.to_bytes().unwrap();
    assert_eq!(bytes.len(), 16);
    let back = Card::from_bytes(&bytes).unwrap();
    assert_eq!(back, card);
}

#[test]
fn round_trip_short_uid() {
    let card = Card::new(String::from("1231f323"), String::from("000000")).unwrap();
    let bytes = card.to_bytes().unwrap();
    assert_eq!(
        bytes,
        vec![
            0x12, 0x31, 0xF3, 0x23, 0xFF, 0xFF, 0xFF, 0xFF, 0xFF, 0xFF, 0x00, 0x00, 0x00, 0x00,
            0x00, 0x00
        ]
    );
    let back = Card::from_bytes(&bytes).unwrap();
    assert_eq!(back, card);
}

#[test]
fn empty_record_is_detected_and_reproduced() {
    let empty = vec![0xFFu8; 16];
    assert!(Card::is_empty(&empty));
    let mut not_empty = vec![0xFFu8; 16];
    not_empty[3] = 0x00;
    assert!(!Card::is_empty(&not_empty));
    assert!(!Card::is_empty(&vec![0xFFu8; 15]));

    let absent = Card::from_bytes(&empty).unwrap();
    assert_eq!(absent.uid, "");
    assert_eq!(absent.pin, "");
    assert_eq!(absent.to_bytes().unwrap(), vec![0xFFu8; 16]);
}

#[test]
fn seven_digit_pin_is_rejected() {
    let r = Card::new(String::from("1231f323"), String::from("1234567"));
    assert!(matches!(r, Err(AgrgErr::InvalidInput(_))));
}

#[test]
fn over_long_uid_is_rejected() {
    let r = Card::new(String::from("1231f323aabbccddee421"), String::from("123456"));
    assert!(matches!(r, Err(AgrgErr::InvalidInput(_))));
}

#[test]
fn pin_with_letter_fails_parse() {
    let card = Card::new(String::from("1231f323"), String::from("12a456")).unwrap();
    assert!(matches!(card.to_bytes(), Err(AgrgErr::Parse(_))));
}

#[test]
fn uid_with_bad_hex_fails_parse() {
    let card = Card::new(String::from("12zz"), String::from("123456")).unwrap();
    assert!(matches!(card.to_bytes(), Err(AgrgErr::Parse(_))));
}

#[test]
fn wrong_record_length_is_rejected() {
    assert!(matches!(Card::from_bytes(&vec![0u8; 15]), Err(AgrgErr::InvalidInput(_))));
    assert!(matches!(Card::from_bytes(&vec![0u8; 17]), Err(AgrgErr::InvalidInput(_))));
}

#[test]
fn pin_byte_above_nine_fails_parse() {
    let mut bytes = vec![0xFFu8; 16];
    bytes[10] = 0x0A;
    assert!(matches!(Card::from_bytes(&bytes), Err(AgrgErr::Parse(_))));
}

#[test]
fn uid_trim_stops_at_first_ff() {
    // An interior 0x00 after data keeps everything before the 0xFF padding.
    let bytes: Vec<u8> = vec![
        0x12, 0x00, 0x34, 0xFF, 0xFF, 0xFF, 0xFF, 0xFF, 0xFF, 0xFF, 0xFF, 0xFF, 0xFF, 0xFF, 0xFF,
        0xFF,
    ];
    let card = Card::from_bytes(&bytes).unwrap();
    assert_eq!(card.uid, "120034");
    assert_eq!(card.pin, "");
}

#[test]
fn pin_to_bytes_pads_short_pins() {
    assert_eq!(
        pin_to_bytes(String::from("1234")).unwrap(),
        vec![1, 2, 3, 4, 0xFF, 0xFF]
    );
    assert_eq!(
        pin_to_bytes(String::from("000000")).unwrap(),
        vec![0, 0, 0, 0, 0, 0]
    );
    assert_eq!(pin_to_bytes(String::new()).unwrap(), vec![0xFF; 6]);
}

#[test]
fn pin_to_bytes_rejects_bad_input() {
    assert!(matches!(pin_to_bytes(String::from("12x4")), Err(AgrgErr::Parse(_))));
    assert!(matches!(
        pin_to_bytes(String::from("1234567")),
        Err(AgrgErr::InvalidInput(_))
    ));
}

#[test]
fn rfid_to_bytes_pads_and_evens() {
    assert_eq!(
        rfid_to_bytes(String::from("1231f323")).unwrap(),
        vec![0x12, 0x31, 0xF3, 0x23, 0xFF, 0xFF, 0xFF, 0xFF, 0xFF, 0xFF]
    );
    // An odd number of digits is read as if followed by 'f'.
    assert_eq!(
        rfid_to_bytes(String::from("123")).unwrap(),
        vec![0x12, 0x3F, 0xFF, 0xFF, 0xFF, 0xFF, 0xFF, 0xFF, 0xFF, 0xFF]
    );
}

#[test]
fn rfid_to_bytes_rejects_bad_input() {
    assert!(matches!(rfid_to_bytes(String::from("12g4")), Err(AgrgErr::Parse(_))));
    assert!(matches!(
        rfid_to_bytes(String::from("1231f323aabbccddee421")),
        Err(AgrgErr::InvalidInput(_))
    ));
}

#[test]
fn largest_uid_and_pin_round_trip() {
    let card = Card::new(String::from("00112233445566778899"), String::from("999999")).unwrap();
    let bytes = card.to_bytes().unwrap();
    assert_eq!(bytes.len(), 16);
    assert_eq!(Card::from_bytes(&bytes).unwrap(), card);
}
