//! The 16-byte credential records of the card table.
//!
//! Wire layout: bytes 0..10 hold the RFID UID, right-padded with `0xFF`;
//! bytes 10..16 hold the PIN, one digit value (0..=9) per byte,
//! right-padded with `0xFF`. A slot whose 16 bytes are all `0xFF` holds no
//! credential.

use vstd::prelude::*;
use crate::bytes::{all_ff, pad_ff, pad_ff_seq, trim_empty, trim_ff, lemma_trim_ff_empty,
    lemma_trim_ff_prefix, lemma_trim_pad_ff};
use crate::error::AgrgErr;
use crate::text::{ascii_string, bytes_of_hex, chars_of_bytes, digit_char, digit_val, hex_decode,
    hex_encode, hex_of, is_digit_char, is_hex_char, is_hex_str, is_lower_hex_str,
    lemma_bytes_of_hex_len, lemma_bytes_of_hex_of, lemma_hex_of_bytes_of, lemma_hex_of_valid,
    pin_digits};
use vstd::slice::{slice_subrange, slice_to_vec};

verus! {

/// A credential: the UID as a hex string (two characters per byte) and the
/// PIN as a string of decimal digits.
#[derive(Debug, Clone, PartialEq)]
pub struct Card {
    pub uid: String,
    pub pin: String,
}

/// `uid` and `pin` fit the wire layout: decodable hex of at most 10 bytes,
/// and at most 6 decimal digits.
pub open spec fn card_encodable(uid: Seq<char>, pin: Seq<char>) -> bool {
    &&& is_hex_str(uid)
    &&& bytes_of_hex(uid).len() <= 10
    &&& pin.len() <= 6
    &&& forall|i: int| 0 <= i < pin.len() ==> is_digit_char(pin[i])
}

/// The 16 bytes that encode a credential: the UID bytes padded to 10, then
/// the PIN digit values padded to 6.
pub open spec fn card_bytes(uid: Seq<char>, pin: Seq<char>) -> Seq<u8> {
    pad_ff_seq(bytes_of_hex(uid), 10) + pad_ff_seq(pin_digits(pin), 6)
}

/// The PIN field of a 16-byte record, trailing padding removed.
pub open spec fn card_pin_field(bytes: Seq<u8>) -> Seq<u8> {
    trim_ff(bytes.subrange(10, 16))
}

/// Every PIN byte left after trimming is a digit value.
pub open spec fn card_pin_field_ok(bytes: Seq<u8>) -> bool {
    forall|i: int| 0 <= i < card_pin_field(bytes).len() ==> card_pin_field(bytes)[i] <= 9
}

/// The UID string a 16-byte record decodes to.
pub open spec fn spec_card_uid(bytes: Seq<u8>) -> Seq<char> {
    hex_of(trim_ff(bytes.subrange(0, 10)))
}

/// The PIN string a 16-byte record decodes to.
pub open spec fn spec_card_pin(bytes: Seq<u8>) -> Seq<char> {
    card_pin_field(bytes).map_values(|b: u8| digit_char(b))
}

impl Card {
    /// Build a credential, rejecting a UID over 20 hex characters or a PIN
    /// that is not exactly 6 characters.
    pub fn new(uid: String, pin: String) -> (r: Result<Card, AgrgErr>)
        ensures
            r is Ok <==> (uid@.len() <= 20 && pin@.len() == 6),
            r matches Ok(c) ==> c.uid@ == uid@ && c.pin@ == pin@,
            r matches Err(e) ==> e is InvalidInput,
    {
        if uid.as_str().unicode_len() > 20 {
            return Err(AgrgErr::InvalidInput(String::from_str("UID must be at most 20 hex characters")));
        }
        if pin.as_str().unicode_len() != 6 {
            return Err(AgrgErr::InvalidInput(String::from_str("PIN must be 6 digits")));
        }
        Ok(Card { uid, pin })
    }

    /// Encode the credential into its 16-byte record. Fails with a parse
    /// error on a UID that is not hex or a PIN with a non-digit character,
    /// and with an input error on an over-long UID or PIN.
    pub fn to_bytes(&self) -> (r: Result<Vec<u8>, AgrgErr>)
        ensures
            r is Ok <==> card_encodable(self.uid@, self.pin@),
            r matches Ok(v) ==> v@ == card_bytes(self.uid@, self.pin@),
            r matches Err(e) ==> {
                if !is_hex_str(self.uid@) {
                    e is Parse
                } else if bytes_of_hex(self.uid@).len() > 10 {
                    e is InvalidInput
                } else if exists|i: int|
                    0 <= i < self.pin@.len() && !is_digit_char(self.pin@[i]) {
                    e is Parse
                } else {
                    e is InvalidInput
                }
            },
    {
        let mut uid_bytes = match hex_decode(self.uid.as_str()) {
            Some(v) => v,
            None => {
                return Err(AgrgErr::Parse(String::from_str("invalid UID hex format")));
            },
        };
        if uid_bytes.len() > 10 {
            return Err(AgrgErr::InvalidInput(String::from_str("UID must be at most 10 bytes")));
        }
        let pin_values = match digits_of_str(self.pin.as_str()) {
            Some(v) => v,
            None => {
                return Err(AgrgErr::Parse(String::from_str("invalid PIN character")));
            },
        };
        if pin_values.len() > 6 {
            return Err(AgrgErr::InvalidInput(String::from_str("PIN must be at most 6 digits")));
        }
        let mut pin_field = pin_values;
        pad_ff(&mut uid_bytes, 10);
        pad_ff(&mut pin_field, 6);
        let mut record = uid_bytes;
        record.append(&mut pin_field);
        proof {
            assert(record@ =~= card_bytes(self.uid@, self.pin@));
        }
        Ok(record)
    }

    /// Decode a 16-byte record. The UID is whatever precedes the `0xFF`
    /// padding of the first field, hex-encoded; the PIN field's bytes must
    /// each be a digit value 0..=9 once its padding is trimmed. An all-`0xFF`
    /// record decodes to the empty credential (empty UID and PIN).
    pub fn from_bytes(bytes: &[u8]) -> (r: Result<Card, AgrgErr>)
        ensures
            r is Ok <==> (bytes@.len() == 16 && card_pin_field_ok(bytes@)),
            r matches Ok(c) ==> c.uid@ == spec_card_uid(bytes@) && c.pin@ == spec_card_pin(
                bytes@,
            ),
            r matches Err(e) ==> {
                if bytes@.len() != 16 {
                    e is InvalidInput
                } else {
                    e is Parse
                }
            },
    {
        if bytes.len() != 16 {
            return Err(AgrgErr::InvalidInput(
                String::from_str("card record must be exactly 16 bytes"),
            ));
        }
        let uid_field = trim_empty(slice_to_vec(slice_subrange(bytes, 0, 10)));
        let pin_field = trim_empty(slice_to_vec(slice_subrange(bytes, 10, 16)));
        let uid = hex_encode(uid_field.as_slice());
        let mut pin_ascii: Vec<u8> = Vec::new();
        let mut i: usize = 0;
        while i < pin_field.len()
            invariant
                i <= pin_field.len(),
                bytes@.len() == 16,
                pin_field@ == card_pin_field(bytes@),
                forall|j: int| 0 <= j < i ==> pin_field@[j] <= 9,
                pin_ascii@.len() == i,
                forall|j: int| 0 <= j < i ==> pin_ascii@[j] == pin_field@[j] + 48,
            decreases pin_field@.len() - i,
        {
            let b = pin_field[i];
            if b > 9 {
                proof {
                    assert(card_pin_field(bytes@)[i as int] > 9);
                    assert(!card_pin_field_ok(bytes@));
                }
                return Err(AgrgErr::Parse(String::from_str("invalid PIN byte value")));
            }
            pin_ascii.push(b + 48);
            i = i + 1;
        }
        let pin = ascii_string(pin_ascii);
        proof {
            assert(pin@ =~= spec_card_pin(bytes@));
        }
        Ok(Card { uid, pin })
    }

    /// An empty credential slot: 16 bytes, all `0xFF`.
    pub fn is_empty(bytes: &[u8]) -> (r: bool)
        ensures
            r == (bytes@.len() == 16 && all_ff(bytes@)),
    {
        if bytes.len() != 16 {
            return false;
        }
        let mut i: usize = 0;
        while i < 16
            invariant
                i <= 16,
                bytes@.len() == 16,
                forall|j: int| 0 <= j < i ==> bytes@[j] == 0xFF,
            decreases 16 - i,
        {
            if bytes[i] != 0xFF {
                return false;
            }
            i = i + 1;
        }
        true
    }
}

/// Map each character of `s` to its digit value; `None` if any character is
/// not a decimal digit.
fn digits_of_str(s: &str) -> (r: Option<Vec<u8>>)
    ensures
        r is Some <==> (forall|i: int| 0 <= i < s@.len() ==> is_digit_char(s@[i])),
        r matches Some(v) ==> v@ == pin_digits(s@),
{
    let n = s.unicode_len();
    let mut values: Vec<u8> = Vec::new();
    let mut i: usize = 0;
    while i < n
        invariant
            i <= n,
            n == s@.len(),
            forall|j: int| 0 <= j < i ==> is_digit_char(s@[j]),
            values@.len() == i,
            forall|j: int| 0 <= j < i ==> values@[j] == digit_val(s@[j]),
        decreases n - i,
    {
        let c = s.get_char(i);
        let v: u8 = match c {
            '0' => 0,
            '1' => 1,
            '2' => 2,
            '3' => 3,
            '4' => 4,
            '5' => 5,
            '6' => 6,
            '7' => 7,
            '8' => 8,
            '9' => 9,
            _ => {
                proof {
                    assert(!is_digit_char(s@[i as int]));
                }
                return None;
            },
        };
        proof {
            assert(is_digit_char(s@[i as int]));
            assert(digit_val(s@[i as int]) == v);
        }
        values.push(v);
        i = i + 1;
    }
    proof {
        assert(values@ =~= pin_digits(s@));
    }
    Some(values)
}

/// Encode a PIN entry field: each character its digit value, right-padded
/// with `0xFF` to the 6-byte PIN field.
pub fn pin_to_bytes(pin_str: String) -> (r: Result<Vec<u8>, AgrgErr>)
    ensures
        r is Ok <==> (pin_str@.len() <= 6 && forall|i: int|
            0 <= i < pin_str@.len() ==> is_digit_char(pin_str@[i])),
        r matches Ok(v) ==> v@ == pad_ff_seq(pin_digits(pin_str@), 6),
        r matches Err(e) ==> {
            if exists|i: int| 0 <= i < pin_str@.len() && !is_digit_char(pin_str@[i]) {
                e is Parse
            } else {
                e is InvalidInput
            }
        },
{
    let mut values = match digits_of_str(pin_str.as_str()) {
        Some(v) => v,
        None => {
            return Err(AgrgErr::Parse(String::from_str("invalid PIN character")));
        },
    };
    if values.len() > 6 {
        return Err(AgrgErr::InvalidInput(String::from_str("PIN too long: at most 6 digits")));
    }
    pad_ff(&mut values, 6);
    Ok(values)
}

/// `s` with a final `'f'` appended when its length is odd, so that it can
/// be hex-decoded.
pub open spec fn rfid_evened(s: Seq<char>) -> Seq<char> {
    if s.len() % 2 == 0 {
        s
    } else {
        s + seq!['f']
    }
}

/// Encode a UID entry field: the hex string decoded to bytes (an odd final
/// digit is read as if followed by `'f'`), right-padded with `0xFF` to the
/// 10-byte UID field.
pub fn rfid_to_bytes(hex_str: String) -> (r: Result<Vec<u8>, AgrgErr>)
    ensures
        r is Ok <==> (hex_str@.len() <= 20 && forall|i: int|
            0 <= i < hex_str@.len() ==> is_hex_char(hex_str@[i])),
        r matches Ok(v) ==> v@ == pad_ff_seq(bytes_of_hex(rfid_evened(hex_str@)), 10),
        r matches Err(e) ==> {
            if exists|i: int| 0 <= i < hex_str@.len() && !is_hex_char(hex_str@[i]) {
                e is Parse
            } else {
                e is InvalidInput
            }
        },
{
    let ghost orig: Seq<char> = hex_str@;
    let mut hex_even = hex_str;
    if hex_even.as_str().unicode_len() % 2 != 0 {
        hex_even.append("f");
        proof {
            reveal_strlit("f");
            assert(hex_even@ =~= rfid_evened(orig));
        }
    }
    let mut bytes = match hex_decode(hex_even.as_str()) {
        Some(v) => v,
        None => {
            proof {
                assert(exists|i: int| 0 <= i < orig.len() && !is_hex_char(orig[i])) by {
                    let k = choose|k: int|
                        0 <= k < rfid_evened(orig).len() && !is_hex_char(rfid_evened(orig)[k]);
                    assert(0 <= k < orig.len() && !is_hex_char(orig[k]));
                }
            }
            return Err(AgrgErr::Parse(String::from_str("invalid RFID hex format")));
        },
    };
    proof {
        lemma_bytes_of_hex_len(rfid_evened(orig));
        assert(rfid_evened(orig).len() % 2 == 0);
        assert forall|i: int| 0 <= i < orig.len() implies is_hex_char(orig[i]) by {
            assert(rfid_evened(orig)[i] == orig[i]);
            assert(is_hex_char(rfid_evened(orig)[i]));
        }
    }
    if bytes.len() > 10 {
        proof {
            assert(rfid_evened(orig).len() / 2 >= 11);
            assert(rfid_evened(orig).len() >= 22);
            assert(orig.len() > 20);
        }
        return Err(AgrgErr::InvalidInput(String::from_str("RFID too long: at most 10 bytes")));
    }
    proof {
        assert(rfid_evened(orig).len() <= 20);
        assert(orig.len() <= 20);
    }
    pad_ff(&mut bytes, 10);
    Ok(bytes)
}

/// Law: decoding the encoding of a canonical credential yields it back.
/// Canonical means: the UID is lowercase hex of full byte pairs whose byte
/// sequence does not itself end in the `0xFF` fill byte, and the PIN is six
/// decimal digits. (A UID whose last byte is `0xFF`, such as "12ff", is
/// indistinguishable from padding on the wire and is not canonical.)
pub proof fn lemma_card_round_trip(uid: Seq<char>, pin: Seq<char>)
    requires
        is_lower_hex_str(uid),
        uid.len() <= 20,
        bytes_of_hex(uid).len() > 0 ==> bytes_of_hex(uid)[bytes_of_hex(uid).len() - 1] != 0xFF,
        pin.len() == 6,
        forall|i: int| 0 <= i < pin.len() ==> is_digit_char(pin[i]),
    ensures
        card_encodable(uid, pin),
        card_bytes(uid, pin).len() == 16,
        card_pin_field_ok(card_bytes(uid, pin)),
        spec_card_uid(card_bytes(uid, pin)) == uid,
        spec_card_pin(card_bytes(uid, pin)) == pin,
{
    let ub = bytes_of_hex(uid);
    let pd = pin_digits(pin);
    lemma_bytes_of_hex_len(uid);
    let cb = card_bytes(uid, pin);
    assert(cb.subrange(0, 10) =~= pad_ff_seq(ub, 10));
    assert(cb.subrange(10, 16) =~= pad_ff_seq(pd, 6));
    lemma_trim_pad_ff(ub, 10);
    assert(pd.len() == 6 && pd[5] == digit_val(pin[5]) && pd[5] <= 9);
    lemma_trim_pad_ff(pd, 6);
    assert(pad_ff_seq(pd, 6) =~= pd);
    lemma_hex_of_bytes_of(uid);
    assert(spec_card_pin(cb) =~= pin);
}

/// Law: re-encoding a decoded credential reproduces the record's 16 bytes
/// exactly, for every record that decodes at all. A dump that is decoded
/// and uploaded unchanged writes back the bytes it read.
pub proof fn lemma_card_reencode(b: Seq<u8>)
    requires
        b.len() == 16,
        card_pin_field_ok(b),
    ensures
        card_encodable(spec_card_uid(b), spec_card_pin(b)),
        card_bytes(spec_card_uid(b), spec_card_pin(b)) == b,
{
    let uf = b.subrange(0, 10);
    let pf = b.subrange(10, 16);
    let ut = trim_ff(uf);
    let pt = trim_ff(pf);
    lemma_trim_ff_prefix(uf);
    lemma_trim_ff_prefix(pf);
    lemma_hex_of_valid(ut);
    lemma_bytes_of_hex_of(ut);
    assert(pt == card_pin_field(b));
    assert(pin_digits(spec_card_pin(b)) =~= pt) by {
        assert forall|i: int| 0 <= i < pt.len() implies digit_val(digit_char(pt[i])) == pt[i] by {
            assert(card_pin_field(b)[i] <= 9);
        }
    }
    assert(pad_ff_seq(ut, 10) =~= uf) by {
        assert forall|i: int| ut.len() <= i < 10 implies uf[i] == 0xFF by {
            assert(uf.skip(ut.len() as int)[i - ut.len()] == 0xFF);
        }
    }
    assert(pad_ff_seq(pt, 6) =~= pf) by {
        assert forall|i: int| pt.len() <= i < 6 implies pf[i] == 0xFF by {
            assert(pf.skip(pt.len() as int)[i - pt.len()] == 0xFF);
        }
    }
    assert(card_bytes(spec_card_uid(b), spec_card_pin(b)) =~= b);
}

/// Law: an all-`0xFF` record decodes to the empty credential, and the empty
/// credential encodes back to exactly 16 `0xFF` bytes.
pub proof fn lemma_empty_card(bytes: Seq<u8>)
    requires
        bytes.len() == 16,
        all_ff(bytes),
    ensures
        card_pin_field_ok(bytes),
        spec_card_uid(bytes) == Seq::<char>::empty(),
        spec_card_pin(bytes) == Seq::<char>::empty(),
        card_encodable(Seq::<char>::empty(), Seq::<char>::empty()),
        all_ff(card_bytes(Seq::<char>::empty(), Seq::<char>::empty())),
        card_bytes(Seq::<char>::empty(), Seq::<char>::empty()).len() == 16,
{
    let e = Seq::<char>::empty();
    assert(all_ff(bytes.subrange(0, 10)));
    assert(all_ff(bytes.subrange(10, 16)));
    lemma_trim_ff_empty(bytes.subrange(0, 10));
    lemma_trim_ff_empty(bytes.subrange(10, 16));
    assert(trim_ff(bytes.subrange(0, 10)) =~= Seq::<u8>::empty());
    assert(trim_ff(bytes.subrange(10, 16)) =~= Seq::<u8>::empty());
    assert(spec_card_uid(bytes) =~= e);
    assert(spec_card_pin(bytes) =~= e);
    assert(bytes_of_hex(e) =~= Seq::<u8>::empty());
    let cb = card_bytes(e, e);
    assert forall|i: int| 0 <= i < cb.len() implies cb[i] == 0xFF by {}
}

} // verus!
