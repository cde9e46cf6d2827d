use agrg_shd::error::AgrgErr;
use agrg_shd::memmap::{
    chunk_records, decode_cards_region, decode_journal_region, CARDS_START, CARD_SLOTS,
    JOURNAL_SLOTS, JOURNAL_START, MEM_END, RECORD_SIZE, SETTINGS_START,
};
use agrg_shd::transport::{
    check_handle, datetime_to_bytes, decode_text_response, get_datetime, get_text, read_mem_frame,
    set_datetime, set_text, upload_frames, write_mem_frame, MemDump,
};

#[test]
fn region_constants_fit_together() {
    assert_eq!(SETTINGS_START, 0x0000);
    assert_eq!(CARDS_START, 0x0010);
    assert_eq!(JOURNAL_START, 0x1000);
    assert_eq!(MEM_END, 0x8000);
    assert_eq!(
        (JOURNAL_START - CARDS_START) as usize / RECORD_SIZE,
        CARD_SLOTS
    );
    assert_eq!((MEM_END - JOURNAL_START) as usize / RECORD_SIZE, JOURNAL_SLOTS);
}

#[test]
fn card_region_chunks_into_255_records() {
    // The credential region [0x0010, 0x1000) is 4080 bytes.
    let raw = vec![0xFFu8; 4080];
    let chunks = chunk_records(&raw).unwrap();
    assert_eq!(chunks.len(), 255);
    assert!(chunks.iter().all(|c| c.len() == 16));

    let cards = decode_cards_region(&raw).unwrap();
    assert_eq!(cards.len(), 255);
    assert!(cards.iter().all(|c| c.is_ok()));
}

#[test]
fn partial_final_chunk_is_rejected() {
    assert!(matches!(chunk_records(&vec![0u8; 17]), Err(AgrgErr::InvalidInput(_))));
    assert!(matches!(
        decode_cards_region(&vec![0u8; 4079]),
        Err(AgrgErr::InvalidInput(_))
    ));
    assert!(matches!(
        decode_journal_region(&vec![0u8; 15]),
        Err(AgrgErr::InvalidInput(_))
    ));
}

#[test]
fn bad_card_slot_is_flagged_not_dropped() {
    let mut raw = vec![0xFFu8; 48];
    raw[16 + 10] = 0x0B; // second slot: PIN byte out of range
    let cards = decode_cards_region(&raw).unwrap();
    assert_eq!(cards.len(), 3);
    assert!(cards[0].is_ok());
    assert!(matches!(cards[1], Err(AgrgErr::Parse(_))));
    assert!(cards[2].is_ok());
}

#[test]
fn journal_region_decodes_every_record() {
    let mut raw = vec![0xFFu8; 32];
    raw[7] = 0x07;
    let entries = decode_journal_region(&raw).unwrap();
    assert_eq!(entries.len(), 2);
    assert!(!entries[0].is_empty());
    assert!(entries[1].is_empty());
}

#[test]
fn request_frames_match_the_protocol() {
    assert_eq!(read_mem_frame(0x1234, 0x20), vec![0x03, 0x12, 0x34, 0x20]);
    assert_eq!(
        write_mem_frame(0x0010, &[0xAA, 0xBB]),
        vec![0x02, 0x00, 0x10, 0xAA, 0xBB]
    );
    assert_eq!(get_datetime(), vec![0x01, 0x00, 0x00, 0x00]);
    assert_eq!(get_text(), vec![0x11, 0x00, 0x00, 0xFF]);
}

#[test]
fn datetime_encodes_as_packed_decimal() {
    // Decimal 25 is sent as byte 0x25, not 25.
    let bytes = datetime_to_bytes(String::from("14:30:25 17.05.2025")).unwrap();
    assert_eq!(bytes, vec![0x25, 0x30, 0x14, 0x17, 0x00, 0x05, 0x25]);
}

#[test]
fn datetime_rejects_malformed_strings() {
    assert!(matches!(
        datetime_to_bytes(String::from("14:30:25")),
        Err(AgrgErr::Parse(_))
    ));
    assert!(matches!(
        datetime_to_bytes(String::from("14-30-25 17.05.2025")),
        Err(AgrgErr::Parse(_))
    ));
    assert!(matches!(
        datetime_to_bytes(String::from("1x:30:25 17.05.2025")),
        Err(AgrgErr::Parse(_))
    ));
}

#[test]
fn set_datetime_frames_the_time_bytes() {
    let frame = set_datetime(String::from("14:30:25 17.05.2025")).unwrap();
    assert_eq!(
        frame,
        vec![0x00, 0x00, 0x00, 0x07, 0x25, 0x30, 0x14, 0x17, 0x00, 0x05, 0x25]
    );
}

#[test]
fn set_text_pads_and_truncates_to_64() {
    let frame = set_text(vec![b'h', b'i']);
    assert_eq!(frame.len(), 4 + 64);
    assert_eq!(&frame[0..4], &[0x82, 0x00, 0x00, 0x40]);
    assert_eq!(&frame[4..6], b"hi");
    assert!(frame[6..].iter().all(|&b| b == 0xFF));

    let long = vec![b'x'; 100];
    let frame = set_text(long);
    assert_eq!(frame.len(), 4 + 64);
    assert!(frame[4..].iter().all(|&b| b == b'x'));
}

#[test]
fn text_response_is_trimmed_and_ascii_filtered() {
    let mut res = b"SH-D handle".to_vec();
    res.push(0xC3); // non-ASCII byte is dropped, not an error
    res.extend_from_slice(&[0xFF; 10]);
    assert_eq!(decode_text_response(res).unwrap(), "SH-D handle");
    assert_eq!(decode_text_response(vec![0xFF; 64]), None);
    assert_eq!(decode_text_response(Vec::new()), None);
}

#[test]
fn check_handle_wants_a_nonempty_answer() {
    assert!(check_handle(&[0x25, 0x30, 0x14]));
    assert!(!check_handle(&[]));
}

fn run_dump<F: Fn(u16) -> Vec<u8>>(device: F) -> MemDump {
    let mut dump = MemDump::new();
    while let Some(cmd) = dump.next_command() {
        assert_eq!(cmd[0], 0x03);
        assert_eq!(cmd[3], 0x40);
        let addr = ((cmd[1] as u16) << 8) | cmd[2] as u16;
        dump.feed(device(addr));
    }
    dump
}

#[test]
fn dump_stops_at_the_first_empty_chunk_past_the_card_table() {
    // A device with nothing written beyond the settings and card regions.
    let dump = run_dump(|addr| {
        if addr >= 0x1000 {
            vec![0xFF; 64]
        } else {
            vec![0xAB; 64]
        }
    });
    assert!(dump.done);
    assert_eq!(dump.data.len(), 0x1000);
    assert!(dump.data.iter().all(|&b| b == 0xAB));
}

#[test]
fn dump_keeps_all_ff_chunks_below_the_journal() {
    // An all-0xFF chunk below 0x1000 is data, not an end marker.
    let dump = run_dump(|addr| {
        if addr >= 0x1000 {
            Vec::new()
        } else {
            vec![0xFF; 64]
        }
    });
    assert_eq!(dump.data.len(), 0x1000);
    assert!(dump.data.iter().all(|&b| b == 0xFF));
}

#[test]
fn dump_covers_the_whole_space_when_nothing_ends_it() {
    let dump = run_dump(|_| vec![0x55; 64]);
    assert_eq!(dump.data.len(), 0x8000);
}

#[test]
fn dump_stops_on_an_empty_response() {
    let dump = run_dump(|_| Vec::new());
    assert!(dump.done);
    assert_eq!(dump.data.len(), 0);
}

#[test]
fn upload_frames_cover_settings_and_cards_only() {
    let mut image = vec![0u8; 0x1000];
    for (i, b) in image.iter_mut().enumerate() {
        *b = (i % 251) as u8;
    }
    let frames = upload_frames(&image).unwrap();
    assert_eq!(frames.len(), 256);
    assert_eq!(&frames[0][0..3], &[0x02, 0x00, 0x00]);
    assert_eq!(&frames[0][3..19], &image[0..16]);
    assert_eq!(&frames[1][0..3], &[0x02, 0x00, 0x10]);
    assert_eq!(&frames[255][0..3], &[0x02, 0x0F, 0xF0]);
    assert_eq!(&frames[255][3..19], &image[0x0FF0..0x1000]);
}

#[test]
fn upload_rejects_a_wrong_sized_image() {
    assert!(matches!(upload_frames(&vec![0u8; 16]), Err(AgrgErr::InvalidInput(_))));
    assert!(matches!(
        upload_frames(&vec![0u8; 0x8000]),
        Err(AgrgErr::InvalidInput(_))
    ));
}
