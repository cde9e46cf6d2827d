//! Framing of the serial commands, and the stateful part of the bulk
//! operations.
//!
//! Every exchange with the device is one request frame followed by one
//! response. This module builds the request frames and interprets the
//! responses; opening the port, writing the frame and reading the response
//! back is blocking I/O and belongs to the embedding application. The
//! application must test each function's stated precondition before calling
//! it, and run at most one exchange at a time: the link is half-duplex.

use vstd::prelude::*;
use crate::bytes::{all_ff, is_all_ff, pad_ff_seq, trim_empty, trim_ff};
use crate::error::AgrgErr;
use crate::text::{ascii_filter, ascii_string, hex_char_val, hex_val_of_char, is_hex_char};

verus! {

/// The high byte of a big-endian address.
pub open spec fn addr_hi(addr: int) -> u8 {
    (addr / 256) as u8
}

/// The low byte of a big-endian address.
pub open spec fn addr_lo(addr: int) -> u8 {
    (addr % 256) as u8
}

/// The read-memory request: `[0x03, addr_hi, addr_lo, len]`. The device
/// answers with up to `len` bytes; a short or empty read means the end of
/// the response.
pub fn read_mem_frame(addr: u16, len: u8) -> (r: Vec<u8>)
    ensures
        r@ == seq![0x03u8, addr_hi(addr as int), addr_lo(addr as int), len],
{
    let mut frame: Vec<u8> = Vec::new();
    frame.push(0x03);
    frame.push((addr / 256) as u8);
    frame.push((addr % 256) as u8);
    frame.push(len);
    proof {
        assert(frame@ =~= seq![0x03u8, addr_hi(addr as int), addr_lo(addr as int), len]);
    }
    frame
}

/// The write-memory request: `[0x02, addr_hi, addr_lo]` followed by the
/// payload. The device's answer is discarded.
pub fn write_mem_frame(addr: u16, payload: &[u8]) -> (r: Vec<u8>)
    ensures
        r@ == seq![0x02u8, addr_hi(addr as int), addr_lo(addr as int)] + payload@,
{
    let mut frame: Vec<u8> = Vec::new();
    frame.push(0x02);
    frame.push((addr / 256) as u8);
    frame.push((addr % 256) as u8);
    let mut body = vstd::slice::slice_to_vec(payload);
    frame.append(&mut body);
    proof {
        assert(frame@ =~= seq![0x02u8, addr_hi(addr as int), addr_lo(addr as int)] + payload@);
    }
    frame
}

/// A datetime string fit for the wire: "HH:MM:SS DD.MM.YYYY", each field
/// two hex digits (the year four, of which the last two are sent).
pub open spec fn datetime_wf(s: Seq<char>) -> bool {
    &&& s.len() == 19
    &&& s[2] == ':' && s[5] == ':' && s[8] == ' ' && s[11] == '.' && s[14] == '.'
    &&& is_hex_char(s[0]) && is_hex_char(s[1]) && is_hex_char(s[3]) && is_hex_char(s[4])
    &&& is_hex_char(s[6]) && is_hex_char(s[7]) && is_hex_char(s[9]) && is_hex_char(s[10])
    &&& is_hex_char(s[12]) && is_hex_char(s[13]) && is_hex_char(s[15]) && is_hex_char(s[16])
    &&& is_hex_char(s[17]) && is_hex_char(s[18])
}

/// The packed-decimal byte of a two-digit field.
pub open spec fn field_byte(c1: char, c2: char) -> u8 {
    (hex_char_val(c1) * 16 + hex_char_val(c2)) as u8
}

/// The seven wire bytes of a datetime string: seconds, minutes, hours,
/// day, a reserved zero byte, month, two-digit year, each field written as
/// the packed-decimal byte whose hex digits are the field's characters.
pub open spec fn datetime_wire_bytes(s: Seq<char>) -> Seq<u8> {
    seq![
        field_byte(s[6], s[7]),
        field_byte(s[3], s[4]),
        field_byte(s[0], s[1]),
        field_byte(s[9], s[10]),
        0u8,
        field_byte(s[12], s[13]),
        field_byte(s[17], s[18]),
    ]
}

/// Encode a "HH:MM:SS DD.MM.YYYY" string into the seven packed-decimal
/// wire bytes; any other shape is rejected.
pub fn datetime_to_bytes(datetime: String) -> (r: Result<Vec<u8>, AgrgErr>)
    ensures
        r is Ok <==> datetime_wf(datetime@),
        r matches Ok(v) ==> v@ == datetime_wire_bytes(datetime@),
        r matches Err(e) ==> e is Parse,
{
    let s = datetime.as_str();
    if s.unicode_len() != 19 {
        return Err(AgrgErr::Parse(String::from_str("datetime must be HH:MM:SS DD.MM.YYYY")));
    }
    if s.get_char(2) != ':' || s.get_char(5) != ':' || s.get_char(8) != ' ' || s.get_char(11)
        != '.' || s.get_char(14) != '.' {
        return Err(AgrgErr::Parse(String::from_str("datetime must be HH:MM:SS DD.MM.YYYY")));
    }
    let hours = match field_value(s, 0) {
        Some(v) => v,
        None => {
            return Err(AgrgErr::Parse(String::from_str("invalid hour field")));
        },
    };
    let minutes = match field_value(s, 3) {
        Some(v) => v,
        None => {
            return Err(AgrgErr::Parse(String::from_str("invalid minute field")));
        },
    };
    let seconds = match field_value(s, 6) {
        Some(v) => v,
        None => {
            return Err(AgrgErr::Parse(String::from_str("invalid second field")));
        },
    };
    let day = match field_value(s, 9) {
        Some(v) => v,
        None => {
            return Err(AgrgErr::Parse(String::from_str("invalid day field")));
        },
    };
    let month = match field_value(s, 12) {
        Some(v) => v,
        None => {
            return Err(AgrgErr::Parse(String::from_str("invalid month field")));
        },
    };
    if hex_val_of_char(s.get_char(15)).is_none() || hex_val_of_char(s.get_char(16)).is_none() {
        return Err(AgrgErr::Parse(String::from_str("invalid year field")));
    }
    let year = match field_value(s, 17) {
        Some(v) => v,
        None => {
            return Err(AgrgErr::Parse(String::from_str("invalid year field")));
        },
    };
    let mut out: Vec<u8> = Vec::new();
    out.push(seconds);
    out.push(minutes);
    out.push(hours);
    out.push(day);
    out.push(0x00);
    out.push(month);
    out.push(year);
    proof {
        assert(out@ =~= datetime_wire_bytes(datetime@));
    }
    Ok(out)
}

/// The packed-decimal byte of the two-digit field at position `i`, or
/// `None` if either character is not a hex digit.
fn field_value(s: &str, i: usize) -> (r: Option<u8>)
    requires
        i < 20,
        i + 1 < s@.len(),
    ensures
        r is Some <==> (is_hex_char(s@[i as int]) && is_hex_char(s@[i + 1])),
        r matches Some(v) ==> v == field_byte(s@[i as int], s@[i + 1]),
{
    let hi = match hex_val_of_char(s.get_char(i)) {
        Some(v) => v,
        None => {
            return None;
        },
    };
    let lo = match hex_val_of_char(s.get_char(i + 1)) {
        Some(v) => v,
        None => {
            return None;
        },
    };
    Some(hi * 16 + lo)
}

/// The get-time request: `[0x01, 0x00, 0x00, 0x00]`. The device answers
/// with seven packed-decimal bytes in the order seconds, minutes, hours,
/// day, reserved, month, two-digit year.
pub fn get_datetime() -> (r: Vec<u8>)
    ensures
        r@ == seq![0x01u8, 0x00, 0x00, 0x00],
{
    let mut frame: Vec<u8> = Vec::new();
    frame.push(0x01);
    frame.push(0x00);
    frame.push(0x00);
    frame.push(0x00);
    proof {
        assert(frame@ =~= seq![0x01u8, 0x00, 0x00, 0x00]);
    }
    frame
}

/// The set-time request: the `[0x00, 0x00, 0x00, 0x07]` header followed by
/// the seven encoded time bytes; rejects a datetime that does not encode.
pub fn set_datetime(datetime: String) -> (r: Result<Vec<u8>, AgrgErr>)
    ensures
        r is Ok <==> datetime_wf(datetime@),
        r matches Ok(v) ==> v@ == seq![0x00u8, 0x00, 0x00, 0x07] + datetime_wire_bytes(datetime@),
        r matches Err(e) ==> e is Parse,
{
    let mut time_bytes = datetime_to_bytes(datetime)?;
    let mut frame: Vec<u8> = Vec::new();
    frame.push(0x00);
    frame.push(0x00);
    frame.push(0x00);
    frame.push(0x07);
    let ghost dt = time_bytes@;
    frame.append(&mut time_bytes);
    proof {
        assert(frame@ =~= seq![0x00u8, 0x00, 0x00, 0x07] + dt);
    }
    Ok(frame)
}

/// The free-text field of a set-text frame: the input truncated, or
/// right-padded with `0xFF`, to exactly 64 bytes.
pub open spec fn text_field(s: Seq<u8>) -> Seq<u8> {
    if s.len() >= 64 {
        s.take(64)
    } else {
        pad_ff_seq(s, 64)
    }
}

/// The set-text request: the `[0x82, 0x00, 0x00, 0x40]` header followed by
/// the text bytes padded or truncated to 64.
pub fn set_text(input: Vec<u8>) -> (r: Vec<u8>)
    ensures
        r@ == seq![0x82u8, 0x00, 0x00, 0x40] + text_field(input@),
{
    let ghost orig = input@;
    let mut body = input;
    if body.len() >= 64 {
        body.truncate(64);
    } else {
        crate::bytes::pad_ff(&mut body, 64);
    }
    let mut frame: Vec<u8> = Vec::new();
    frame.push(0x82);
    frame.push(0x00);
    frame.push(0x00);
    frame.push(0x40);
    let ghost field = body@;
    frame.append(&mut body);
    proof {
        assert(field == text_field(orig));
        assert(frame@ =~= seq![0x82u8, 0x00, 0x00, 0x40] + text_field(orig));
    }
    frame
}

/// The get-text request: `[0x11, 0x00, 0x00, 0xFF]`. The device answers
/// with the stored text, `0xFF`-padded.
pub fn get_text() -> (r: Vec<u8>)
    ensures
        r@ == seq![0x11u8, 0x00, 0x00, 0xFF],
{
    let mut frame: Vec<u8> = Vec::new();
    frame.push(0x11);
    frame.push(0x00);
    frame.push(0x00);
    frame.push(0xFF);
    proof {
        assert(frame@ =~= seq![0x11u8, 0x00, 0x00, 0xFF]);
    }
    frame
}

/// Interpret a get-text response: trim the `0xFF` padding, keep the ASCII
/// bytes and drop the rest rather than failing; a response that is empty
/// after trimming means no text is stored.
pub fn decode_text_response(res: Vec<u8>) -> (r: Option<String>)
    ensures
        r is Some <==> trim_ff(res@).len() > 0,
        r matches Some(s) ==> s@ == ascii_filter(trim_ff(res@)),
{
    let trimmed = trim_empty(res);
    if trimmed.len() == 0 {
        return None;
    }
    let mut kept: Vec<u8> = Vec::new();
    let mut i: usize = 0;
    while i < trimmed.len()
        invariant
            i <= trimmed@.len(),
            forall|j: int| 0 <= j < kept@.len() ==> kept@[j] < 0x80,
            crate::text::chars_of_bytes(kept@) == ascii_filter(trimmed@.take(i as int)),
        decreases trimmed@.len() - i,
    {
        if trimmed[i] < 0x80 {
            kept.push(trimmed[i]);
        }
        proof {
            assert(trimmed@.take(i + 1).drop_last() =~= trimmed@.take(i as int));
            assert(crate::text::chars_of_bytes(kept@) =~= ascii_filter(trimmed@.take(i + 1)));
        }
        i = i + 1;
    }
    proof {
        assert(trimmed@.take(trimmed@.len() as int) =~= trimmed@);
    }
    Some(ascii_string(kept))
}

/// Whether a get-time response shows a live device on the port: any
/// non-empty answer does.
pub fn check_handle(response: &[u8]) -> (r: bool)
    ensures
        r == (response@.len() > 0),
{
    response.len() > 0
}

/// A bulk memory dump in progress: `next_command` gives the next
/// read-memory frame to send, and `feed` folds the device's answer in,
/// deciding whether the dump is complete.
pub struct MemDump {
    /// The base address of the next 64-byte read.
    pub next_addr: u16,
    /// The image accumulated so far, from address zero upward.
    pub data: Vec<u8>,
    /// No further command should be sent.
    pub done: bool,
}

/// The dump walks the address space in aligned 64-byte strides.
pub open spec fn dump_wf(d: MemDump) -> bool {
    d.next_addr % 64 == 0 && d.next_addr <= 0x8000 && (d.next_addr == 0x8000 ==> d.done)
}

impl MemDump {
    /// Start a dump at address zero with nothing accumulated.
    pub fn new() -> (r: MemDump)
        ensures
            r.next_addr == 0,
            r.data@ == Seq::<u8>::empty(),
            !r.done,
            dump_wf(r),
    {
        let r = MemDump { next_addr: 0, data: Vec::new(), done: false };
        proof {
            assert(r.data@ =~= Seq::<u8>::empty());
        }
        r
    }

    /// The next read-memory frame to send, or `None` once the dump is done.
    pub fn next_command(&self) -> (r: Option<Vec<u8>>)
        ensures
            r is Some <==> !self.done,
            r matches Some(f) ==> f@ == seq![
                0x03u8,
                addr_hi(self.next_addr as int),
                addr_lo(self.next_addr as int),
                0x40u8,
            ],
    {
        if self.done {
            None
        } else {
            Some(read_mem_frame(self.next_addr, 0x40))
        }
    }

    /// Fold one 64-byte read response into the dump. An empty response, or
    /// a response of nothing but `0xFF` at or beyond the journal start,
    /// means no more populated memory: the dump ends there, keeping what
    /// was accumulated and discarding the chunk. Anything else is appended,
    /// and the dump ends when the address space is exhausted.
    pub fn feed(&mut self, chunk: Vec<u8>)
        requires
            !old(self).done,
            dump_wf(*old(self)),
        ensures
            dump_wf(*final(self)),
            if chunk@.len() == 0 || (old(self).next_addr >= 0x1000 && chunk@.len() == 64
                && all_ff(chunk@)) {
                final(self).done && final(self).data == old(self).data && final(self).next_addr
                    == old(self).next_addr
            } else {
                final(self).data@ == old(self).data@ + chunk@ && final(self).next_addr == old(
                    self,
                ).next_addr + 64 && (final(self).done <==> old(self).next_addr + 64 == 0x8000)
            },
    {
        let empty_tail = self.next_addr >= 0x1000 && chunk.len() == 64 && is_all_ff(
            chunk.as_slice(),
        );
        if chunk.len() == 0 || empty_tail {
            self.done = true;
            return ;
        }
        let mut chunk = chunk;
        self.data.append(&mut chunk);
        self.next_addr = self.next_addr + 64;
        if self.next_addr == 0x8000 {
            self.done = true;
        }
    }
}

/// The write-memory frames of a bulk upload: the settings record and the
/// credential table, `[0x0000, 0x1000)`, in 16-byte strides and address
/// order. The journal is device-written and never uploaded. An image of
/// any other size is rejected.
pub fn upload_frames(data: &[u8]) -> (r: Result<Vec<Vec<u8>>, AgrgErr>)
    ensures
        r is Ok <==> data@.len() == 0x1000,
        r matches Ok(v) ==> v@.len() == 256 && (forall|i: int|
            0 <= i < 256 ==> #[trigger] v@[i]@ == seq![0x02u8, addr_hi(16 * i), addr_lo(16 * i)]
                + data@.subrange(16 * i, 16 * i + 16)),
        r matches Err(e) ==> e is InvalidInput,
{
    if data.len() != 0x1000 {
        return Err(AgrgErr::InvalidInput(
            String::from_str("upload image must cover the settings and card regions"),
        ));
    }
    let mut out: Vec<Vec<u8>> = Vec::new();
    let mut addr: u16 = 0;
    while addr < 0x1000
        invariant
            addr % 16 == 0,
            addr <= 0x1000,
            data@.len() == 0x1000,
            out@.len() == addr / 16,
            forall|i: int| 0 <= i < out@.len() ==> #[trigger] out@[i]@ == seq![
                0x02u8,
                addr_hi(16 * i),
                addr_lo(16 * i),
            ] + data@.subrange(16 * i, 16 * i + 16),
        decreases 0x1000 - addr,
    {
        let frame = write_mem_frame(
            addr,
            vstd::slice::slice_subrange(data, addr as usize, addr as usize + 16),
        );
        out.push(frame);
        proof {
            assert(16 * (out@.len() - 1) == addr as int);
        }
        addr = addr + 16;
    }
    Ok(out)
}

} // verus!
