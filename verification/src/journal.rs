//! The 16-byte event records of the device journal.
//!
//! Wire layout: bytes 0..7 the timestamp as packed-decimal fields in the
//! order seconds, minutes, hours, day, a reserved byte, month, two-digit
//! year (this order is the protocol contract for both directions; it
//! matches the get-time response); byte 7 the event code; byte 8 the user
//! id; bytes 9..16 an event-specific payload. A record of sixteen `0xFF`
//! bytes is a never-written slot.

use vstd::prelude::*;
use crate::bytes::{all_ff, is_all_ff};
use crate::error::AgrgErr;
use crate::text::{bcd_chars, bcd_string, chars_of_bytes, dec_chars, dec_string, hex_encode,
    hex_of, hex_upper_of, hex_upper_string, timestamp_chars};
use vstd::slice::{slice_subrange, slice_to_vec};

verus! {

/// The event kinds the device logs. Any code outside the known table is
/// kept verbatim in `Custom`.
#[derive(Debug, Clone, Copy, PartialEq, Eq, Structural)]
pub enum EventType {
    PowerOn,
    RegisteredUser,
    UnknownUid,
    UnknownPin,
    HandleUnlocked,
    ForcedUnlock,
    HandleLocked,
    ProgrammingMode,
    WrongAdminPassword,
    Custom(u8),
}

/// The event of each wire byte: codes 0x00..=0x0A are the fixed table
/// (0x04 and 0x05 are unassigned there), everything else is `Custom`.
pub open spec fn spec_event_of(b: u8) -> EventType {
    if b == 0x00 {
        EventType::PowerOn
    } else if b == 0x01 {
        EventType::RegisteredUser
    } else if b == 0x02 {
        EventType::UnknownUid
    } else if b == 0x03 {
        EventType::UnknownPin
    } else if b == 0x06 {
        EventType::HandleUnlocked
    } else if b == 0x07 {
        EventType::ForcedUnlock
    } else if b == 0x08 {
        EventType::HandleLocked
    } else if b == 0x09 {
        EventType::ProgrammingMode
    } else if b == 0x0A {
        EventType::WrongAdminPassword
    } else {
        EventType::Custom(b)
    }
}

/// The display name of an event; a custom event shows its raw code.
pub open spec fn event_name(e: EventType) -> Seq<char> {
    match e {
        EventType::PowerOn => "Power On"@,
        EventType::RegisteredUser => "Registered User"@,
        EventType::UnknownUid => "Unknown UID"@,
        EventType::UnknownPin => "Unknown PIN"@,
        EventType::HandleUnlocked => "Handle Unlocked"@,
        EventType::ForcedUnlock => "Break-in"@,
        EventType::HandleLocked => "Handle Locked"@,
        EventType::ProgrammingMode => "Entered Programming Mode"@,
        EventType::WrongAdminPassword => "Incorrect Admin Password"@,
        EventType::Custom(b) => "Unknown(0x"@ + bcd_chars(b) + ")"@,
    }
}

impl EventType {
    /// Decode an event byte.
    pub fn from_byte(b: u8) -> (r: EventType)
        ensures
            r == spec_event_of(b),
    {
        match b {
            0x00 => EventType::PowerOn,
            0x01 => EventType::RegisteredUser,
            0x02 => EventType::UnknownUid,
            0x03 => EventType::UnknownPin,
            0x06 => EventType::HandleUnlocked,
            0x07 => EventType::ForcedUnlock,
            0x08 => EventType::HandleLocked,
            0x09 => EventType::ProgrammingMode,
            0x0A => EventType::WrongAdminPassword,
            _ => EventType::Custom(b),
        }
    }

    /// The wire byte this event came from.
    pub fn as_byte(&self) -> (r: u8)
        ensures
            spec_event_of(r) == *self || (self matches EventType::Custom(b) && r == b),
    {
        match self {
            EventType::PowerOn => 0x00,
            EventType::RegisteredUser => 0x01,
            EventType::UnknownUid => 0x02,
            EventType::UnknownPin => 0x03,
            EventType::HandleUnlocked => 0x06,
            EventType::ForcedUnlock => 0x07,
            EventType::HandleLocked => 0x08,
            EventType::ProgrammingMode => 0x09,
            EventType::WrongAdminPassword => 0x0A,
            EventType::Custom(b) => *b,
        }
    }

    /// The display name of the event.
    pub fn name(&self) -> (r: String)
        ensures
            r@ == event_name(*self),
    {
        match self {
            EventType::PowerOn => String::from_str("Power On"),
            EventType::RegisteredUser => String::from_str("Registered User"),
            EventType::UnknownUid => String::from_str("Unknown UID"),
            EventType::UnknownPin => String::from_str("Unknown PIN"),
            EventType::HandleUnlocked => String::from_str("Handle Unlocked"),
            EventType::ForcedUnlock => String::from_str("Break-in"),
            EventType::HandleLocked => String::from_str("Handle Locked"),
            EventType::ProgrammingMode => String::from_str("Entered Programming Mode"),
            EventType::WrongAdminPassword => String::from_str("Incorrect Admin Password"),
            EventType::Custom(b) => {
                let mut s = String::from_str("Unknown(0x");
                let digits = bcd_string(*b);
                s.append(digits.as_str());
                s.append(")");
                s
            },
        }
    }
}

/// A decoded journal record.
#[derive(Debug, Clone, PartialEq)]
pub struct JournalEntry {
    /// The seven raw packed-decimal timestamp bytes, in wire order.
    pub timestamp: Vec<u8>,
    pub event_type: EventType,
    pub user_id: u8,
    /// The seven event-specific payload bytes.
    pub data: Vec<u8>,
}

/// The fixed field widths of a well-formed entry.
pub open spec fn entry_wf(e: JournalEntry) -> bool {
    e.timestamp@.len() == 7 && e.data@.len() == 7
}

/// `e` holds the decoded fields of the 16-byte record `bytes`.
pub open spec fn entry_of_bytes(e: JournalEntry, bytes: Seq<u8>) -> bool {
    &&& e.timestamp@ == bytes.subrange(0, 7)
    &&& e.event_type == spec_event_of(bytes[7])
    &&& e.user_id == bytes[8]
    &&& e.data@ == bytes.subrange(9, 16)
}

/// A never-written slot: timestamp and payload all `0xFF`, event code
/// `0xFF`, user id `0xFF`.
pub open spec fn is_empty_entry(e: JournalEntry) -> bool {
    all_ff(e.timestamp@) && e.event_type == EventType::Custom(0xFFu8) && e.user_id == 0xFF
        && all_ff(e.data@)
}

/// The one-line description of an entry: the event name, and for the
/// events that carry one, the user id and the raw credential fragment from
/// the payload (in uppercase hex, as the device wrote it).
pub open spec fn display_info(e: JournalEntry) -> Seq<char> {
    match e.event_type {
        EventType::RegisteredUser => event_name(e.event_type) + " "@ + dec_chars(e.user_id),
        EventType::UnknownUid => event_name(e.event_type) + " "@ + hex_upper_of(
            seq![e.user_id] + e.data@.take(6),
        ),
        EventType::UnknownPin => event_name(e.event_type) + " "@ + dec_chars(e.user_id)
            + hex_upper_of(e.data@.take(5)),
        _ => event_name(e.event_type),
    }
}

impl JournalEntry {
    /// Decode a 16-byte journal record; rejects any other length.
    pub fn parse(bytes: &[u8]) -> (r: Result<JournalEntry, AgrgErr>)
        ensures
            r is Ok <==> bytes@.len() == 16,
            r matches Ok(e) ==> entry_of_bytes(e, bytes@) && entry_wf(e),
            r matches Err(err) ==> err is InvalidInput,
    {
        if bytes.len() != 16 {
            return Err(AgrgErr::InvalidInput(
                String::from_str("journal record must be exactly 16 bytes"),
            ));
        }
        let timestamp = slice_to_vec(slice_subrange(bytes, 0, 7));
        let event_type = EventType::from_byte(bytes[7]);
        let user_id = bytes[8];
        let data = slice_to_vec(slice_subrange(bytes, 9, 16));
        Ok(JournalEntry { timestamp, event_type, user_id, data })
    }

    /// This entry is a never-written slot.
    pub fn is_empty(&self) -> (r: bool)
        ensures
            r == is_empty_entry(*self),
    {
        let ev_ff = match self.event_type {
            EventType::Custom(b) => b == 0xFF,
            _ => false,
        };
        ev_ff && self.user_id == 0xFF && is_all_ff(self.timestamp.as_slice()) && is_all_ff(
            self.data.as_slice(),
        )
    }

    /// The timestamp as "20YY-MM-DD HH:MM:SS", each field the two hex
    /// digits of its packed-decimal byte.
    pub fn timestamp_string(&self) -> (r: String)
        requires
            entry_wf(*self),
        ensures
            r@ == timestamp_chars(self.timestamp@),
    {
        let mut s = String::from_str("20");
        let b = bcd_string(self.timestamp[6]);
        s.append(b.as_str());
        s.append("-");
        let b = bcd_string(self.timestamp[5]);
        s.append(b.as_str());
        s.append("-");
        let b = bcd_string(self.timestamp[3]);
        s.append(b.as_str());
        s.append(" ");
        let b = bcd_string(self.timestamp[2]);
        s.append(b.as_str());
        s.append(":");
        let b = bcd_string(self.timestamp[1]);
        s.append(b.as_str());
        s.append(":");
        let b = bcd_string(self.timestamp[0]);
        s.append(b.as_str());
        s
    }

    /// The timestamp and description to show for this entry, or `None` for
    /// a never-written slot, which is excluded from any materialized log.
    pub fn to_display_row(&self) -> (r: Option<(String, String)>)
        requires
            entry_wf(*self),
        ensures
            r is Some <==> !is_empty_entry(*self),
            r matches Some(t) ==> t.0@ == timestamp_chars(self.timestamp@) && t.1@
                == display_info(*self),
    {
        if self.is_empty() {
            return None;
        }
        let timestamp = self.timestamp_string();
        let info = match self.event_type {
            EventType::RegisteredUser => {
                let mut s = self.event_type.name();
                s.append(" ");
                let id = dec_string(self.user_id);
                s.append(id.as_str());
                s
            },
            EventType::UnknownUid => {
                let mut s = self.event_type.name();
                s.append(" ");
                let mut frag: Vec<u8> = Vec::new();
                frag.push(self.user_id);
                let mut head = slice_to_vec(slice_subrange(self.data.as_slice(), 0, 6));
                frag.append(&mut head);
                proof {
                    assert(frag@ =~= seq![self.user_id] + self.data@.take(6));
                }
                let hx = hex_upper_string(frag.as_slice());
                s.append(hx.as_str());
                s
            },
            EventType::UnknownPin => {
                let mut s = self.event_type.name();
                s.append(" ");
                let id = dec_string(self.user_id);
                s.append(id.as_str());
                let head = slice_subrange(self.data.as_slice(), 0, 5);
                proof {
                    assert(self.data@.subrange(0, 5) =~= self.data@.take(5));
                }
                let hx = hex_upper_string(head);
                s.append(hx.as_str());
                s
            },
            _ => self.event_type.name(),
        };
        Some((timestamp, info))
    }

    /// The CSV rendering of this entry: timestamp, event name, user id,
    /// payload in lowercase hex.
    pub fn to_csv_row(&self) -> (r: String)
        requires
            entry_wf(*self),
        ensures
            r@ == timestamp_chars(self.timestamp@) + ","@ + event_name(self.event_type) + ","@
                + dec_chars(self.user_id) + ","@ + hex_of(self.data@),
    {
        let mut s = self.timestamp_string();
        s.append(",");
        let name = self.event_type.name();
        s.append(name.as_str());
        s.append(",");
        let id = dec_string(self.user_id);
        s.append(id.as_str());
        s.append(",");
        let hx = hex_encode(self.data.as_slice());
        s.append(hx.as_str());
        s
    }
}

/// The CSV lines of the given display rows, in order, skipping the `None`
/// rows of never-written slots.
pub open spec fn csv_rows(rows: Seq<Option<(String, String)>>) -> Seq<char>
    decreases rows.len(),
{
    if rows.len() == 0 {
        Seq::empty()
    } else {
        csv_rows(rows.drop_last()) + match rows.last() {
            Some(t) => t.0@ + ","@ + t.1@ + "\n"@,
            None => Seq::<char>::empty(),
        }
    }
}

/// Serialize display rows to CSV: a header line, then one line per
/// populated row.
pub fn journal_csv(rows: &Vec<Option<(String, String)>>) -> (r: String)
    ensures
        r@ == "Timestamp, Data\n"@ + csv_rows(rows@),
{
    let mut s = String::from_str("Timestamp, Data\n");
    let mut i: usize = 0;
    while i < rows.len()
        invariant
            i <= rows@.len(),
            s@ == "Timestamp, Data\n"@ + csv_rows(rows@.take(i as int)),
        decreases rows@.len() - i,
    {
        match &rows[i] {
            Some(t) => {
                s.append(t.0.as_str());
                s.append(",");
                s.append(t.1.as_str());
                s.append("\n");
            },
            None => {},
        }
        proof {
            assert(rows@.take(i + 1).drop_last() =~= rows@.take(i as int));
            assert(rows@.take(i + 1).last() == rows@[i as int]);
            assert(s@ =~= "Timestamp, Data\n"@ + csv_rows(rows@.take(i + 1)));
        }
        i = i + 1;
    }
    proof {
        assert(rows@.take(rows@.len() as int) =~= rows@);
    }
    s
}

/// Law: a record parses to the never-written entry exactly when its 16
/// bytes are all `0xFF`; `e` stands for what `parse` returns, characterized
/// by its contract.
pub proof fn lemma_empty_entry_iff(bytes: Seq<u8>, e: JournalEntry)
    requires
        bytes.len() == 16,
        entry_of_bytes(e, bytes),
    ensures
        is_empty_entry(e) <==> all_ff(bytes),
{
    if is_empty_entry(e) {
        assert forall|i: int| 0 <= i < bytes.len() implies bytes[i] == 0xFF by {
            if i < 7 {
                assert(bytes[i] == e.timestamp@[i]);
            } else if i >= 9 {
                assert(bytes[i] == e.data@[i - 9]);
            }
        }
    }
    if all_ff(bytes) {
        assert(all_ff(e.timestamp@));
        assert(all_ff(e.data@));
        assert(bytes[7] == 0xFF && bytes[8] == 0xFF);
    }
}

} // verus!
