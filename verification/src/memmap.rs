//! The device memory map: fixed region boundaries over the flat address
//! space `0x0000..0x8000`, and the chunking of a raw region dump into its
//! 16-byte records.
//!
//! A record-level decode failure never aborts a region decode: corrupted or
//! uninitialized device memory is expected, so each card slot carries its
//! own result.

use vstd::prelude::*;
use crate::cards::{card_pin_field_ok, spec_card_pin, spec_card_uid, Card};
use crate::error::AgrgErr;
use crate::journal::{entry_of_bytes, entry_wf, JournalEntry};
use vstd::slice::{slice_subrange, slice_to_vec};

verus! {

/// First address of the settings record.
pub const SETTINGS_START: u16 = 0x0000;

/// First address of the credential table; also one past the settings record.
pub const CARDS_START: u16 = 0x0010;

/// First address of the journal; also one past the credential table.
pub const JOURNAL_START: u16 = 0x1000;

/// One past the last journal address; the size of the address space.
pub const MEM_END: u16 = 0x8000;

/// Every record of every region is this long.
pub const RECORD_SIZE: usize = 16;

/// Slots in the credential table: (0x1000 - 0x0010) / 16.
pub const CARD_SLOTS: usize = 255;

/// Slots in the journal: (0x8000 - 0x1000) / 16.
pub const JOURNAL_SLOTS: usize = 1792;

/// Split a raw region dump into its 16-byte records, in address order.
/// A length that is not a whole number of records is rejected, never
/// silently truncated.
pub fn chunk_records(data: &[u8]) -> (r: Result<Vec<Vec<u8>>, AgrgErr>)
    ensures
        r is Ok <==> data@.len() % 16 == 0,
        r matches Ok(v) ==> v@.len() == data@.len() / 16 && (forall|i: int|
            0 <= i < v@.len() ==> v@[i]@ == data@.subrange(16 * i, 16 * i + 16)),
        r matches Err(e) ==> e is InvalidInput,
{
    if data.len() % 16 != 0 {
        return Err(AgrgErr::InvalidInput(
            String::from_str("region length is not a whole number of records"),
        ));
    }
    let mut out: Vec<Vec<u8>> = Vec::new();
    let mut off: usize = 0;
    while off < data.len()
        invariant
            off <= data@.len(),
            off % 16 == 0,
            data@.len() % 16 == 0,
            out@.len() == off / 16,
            forall|i: int| 0 <= i < out@.len() ==> out@[i]@ == data@.subrange(16 * i, 16 * i + 16),
        decreases data@.len() - off,
    {
        let chunk = slice_to_vec(slice_subrange(data, off, off + 16));
        out.push(chunk);
        off = off + 16;
    }
    Ok(out)
}

/// Decode a credential-table dump: one result per 16-byte slot, in address
/// order. A bad slot is flagged, not dropped, and does not disturb its
/// neighbours.
pub fn decode_cards_region(data: &[u8]) -> (r: Result<Vec<Result<Card, AgrgErr>>, AgrgErr>)
    ensures
        r is Ok <==> data@.len() % 16 == 0,
        r matches Ok(v) ==> v@.len() == data@.len() / 16 && (forall|i: int|
            0 <= i < v@.len() ==> {
                &&& (#[trigger] v@[i] is Ok <==> card_pin_field_ok(
                    data@.subrange(16 * i, 16 * i + 16),
                ))
                &&& (v@[i] matches Ok(c) ==> c.uid@ == spec_card_uid(
                    data@.subrange(16 * i, 16 * i + 16),
                ) && c.pin@ == spec_card_pin(data@.subrange(16 * i, 16 * i + 16)))
            }),
        r matches Err(e) ==> e is InvalidInput,
{
    if data.len() % 16 != 0 {
        return Err(AgrgErr::InvalidInput(
            String::from_str("card region length is not a whole number of records"),
        ));
    }
    let mut out: Vec<Result<Card, AgrgErr>> = Vec::new();
    let mut off: usize = 0;
    while off < data.len()
        invariant
            off <= data@.len(),
            off % 16 == 0,
            data@.len() % 16 == 0,
            out@.len() == off / 16,
            forall|i: int| 0 <= i < out@.len() ==> {
                &&& (#[trigger] out@[i] is Ok <==> card_pin_field_ok(
                    data@.subrange(16 * i, 16 * i + 16),
                ))
                &&& (out@[i] matches Ok(c) ==> c.uid@ == spec_card_uid(
                    data@.subrange(16 * i, 16 * i + 16),
                ) && c.pin@ == spec_card_pin(data@.subrange(16 * i, 16 * i + 16)))
            },
        decreases data@.len() - off,
    {
        let slot = Card::from_bytes(slice_subrange(data, off, off + 16));
        out.push(slot);
        off = off + 16;
    }
    Ok(out)
}

/// Decode a journal dump: one entry per 16-byte record, in address order,
/// never-written slots included (display and export skip them later).
pub fn decode_journal_region(data: &[u8]) -> (r: Result<Vec<JournalEntry>, AgrgErr>)
    ensures
        r is Ok <==> data@.len() % 16 == 0,
        r matches Ok(v) ==> v@.len() == data@.len() / 16 && (forall|i: int|
            0 <= i < v@.len() ==> entry_of_bytes(#[trigger] v@[i], data@.subrange(16 * i, 16 * i + 16))
                && entry_wf(v@[i])),
        r matches Err(e) ==> e is InvalidInput,
{
    if data.len() % 16 != 0 {
        return Err(AgrgErr::InvalidInput(
            String::from_str("journal region length is not a whole number of records"),
        ));
    }
    let mut out: Vec<JournalEntry> = Vec::new();
    let mut off: usize = 0;
    while off < data.len()
        invariant
            off <= data@.len(),
            off % 16 == 0,
            data@.len() % 16 == 0,
            out@.len() == off / 16,
            forall|i: int| 0 <= i < out@.len() ==> entry_of_bytes(
                #[trigger] out@[i],
                data@.subrange(16 * i, 16 * i + 16),
            ) && entry_wf(out@[i]),
        decreases data@.len() - off,
    {
        let entry = match JournalEntry::parse(slice_subrange(data, off, off + 16)) {
            Ok(e) => e,
            Err(_) => vstd::pervasive::unreached(),
        };
        out.push(entry);
        off = off + 16;
    }
    Ok(out)
}

} // verus!
