//! The 16-byte settings record at the start of device memory.
//!
//! Wire layout: byte 0 working mode, byte 1 pinpad mode, byte 2 reader
//! mode, byte 3 access mode, bytes 4..10 the six admin-password digit
//! bytes, bytes 10..16 `0xFF` padding.

use vstd::prelude::*;
use crate::error::AgrgErr;

verus! {

/// Whether the device acts as a bare card reader or a standalone controller.
#[derive(Debug, Clone, Copy, PartialEq, Eq, Structural)]
pub enum WorkingMode {
    CardReader,
    Controller,
}

/// Output format of the PIN pad.
#[derive(Debug, Clone, Copy, PartialEq, Eq, Structural)]
pub enum PinpadMode {
    Wiegand6,
    Wiegand26Hex,
    Wiegand26Dec,
    Off,
}

/// Output format of the card reader.
#[derive(Debug, Clone, Copy, PartialEq, Eq, Structural)]
pub enum ReaderMode {
    Wiegand26,
    Wiegand34,
    Off,
    Wiegand58,
}

/// What a user must present to be let in.
#[derive(Debug, Clone, Copy, PartialEq, Eq, Structural)]
pub enum AccessMode {
    PinOrCard,
    Pin,
    Card,
    PinAndCard,
}

/// The decoded settings record.
#[derive(Debug, Clone, Copy)]
#[verifier::ext_equal]
pub struct DeviceSettings {
    pub working_mode: WorkingMode,
    pub pinpad_mode: PinpadMode,
    pub reader_mode: ReaderMode,
    pub access_mode: AccessMode,
    /// Six digit bytes, each expected to be 0..=9.
    pub admin_password: [u8; 6],
}

impl PartialEq for DeviceSettings {
    fn eq(&self, other: &DeviceSettings) -> (r: bool) {
        let pw_eq = self.admin_password[0] == other.admin_password[0]
            && self.admin_password[1] == other.admin_password[1]
            && self.admin_password[2] == other.admin_password[2]
            && self.admin_password[3] == other.admin_password[3]
            && self.admin_password[4] == other.admin_password[4]
            && self.admin_password[5] == other.admin_password[5];
        let modes_eq = self.working_mode == other.working_mode && self.pinpad_mode
            == other.pinpad_mode && self.reader_mode == other.reader_mode && self.access_mode
            == other.access_mode;
        proof {
            vstd::array::axiom_array_ext_equal::<u8, 6>(
                self.admin_password,
                other.admin_password,
            );
            if pw_eq && modes_eq {
                assert(*self =~= *other);
            }
            if *self == *other {
                assert(self.admin_password =~= other.admin_password);
            }
        }
        modes_eq && pw_eq
    }
}

impl vstd::std_specs::cmp::PartialEqSpecImpl for DeviceSettings {
    open spec fn obeys_eq_spec() -> bool {
        true
    }

    open spec fn eq_spec(&self, other: &DeviceSettings) -> bool {
        *self == *other
    }
}

/// The wire byte of each working mode.
pub open spec fn working_mode_byte(m: WorkingMode) -> u8 {
    match m {
        WorkingMode::CardReader => 0,
        WorkingMode::Controller => 1,
    }
}

/// The wire byte of each pinpad mode.
pub open spec fn pinpad_mode_byte(m: PinpadMode) -> u8 {
    match m {
        PinpadMode::Wiegand6 => 0,
        PinpadMode::Wiegand26Hex => 1,
        PinpadMode::Wiegand26Dec => 2,
        PinpadMode::Off => 3,
    }
}

/// The wire byte of each reader mode.
pub open spec fn reader_mode_byte(m: ReaderMode) -> u8 {
    match m {
        ReaderMode::Wiegand26 => 0,
        ReaderMode::Wiegand34 => 1,
        ReaderMode::Off => 2,
        ReaderMode::Wiegand58 => 3,
    }
}

/// The wire byte of each access mode.
pub open spec fn access_mode_byte(m: AccessMode) -> u8 {
    match m {
        AccessMode::PinOrCard => 0,
        AccessMode::Pin => 1,
        AccessMode::Card => 2,
        AccessMode::PinAndCard => 3,
    }
}

/// The 16 bytes that `to_bytes` emits for `s`.
pub open spec fn settings_bytes(s: DeviceSettings) -> Seq<u8> {
    seq![
        working_mode_byte(s.working_mode),
        pinpad_mode_byte(s.pinpad_mode),
        reader_mode_byte(s.reader_mode),
        access_mode_byte(s.access_mode),
    ] + s.admin_password@ + seq![0xFFu8, 0xFF, 0xFF, 0xFF, 0xFF, 0xFF]
}

/// All four mode bytes of `bytes` are inside their enums' ranges.
pub open spec fn settings_modes_ok(bytes: Seq<u8>) -> bool {
    bytes[0] < 2 && bytes[1] < 4 && bytes[2] < 4 && bytes[3] < 4
}

impl WorkingMode {
    /// Decode a working-mode byte; any byte outside the range is rejected.
    pub fn from_byte(b: u8) -> (r: Result<Self, AgrgErr>)
        ensures
            r is Ok <==> b < 2,
            r matches Ok(m) ==> working_mode_byte(m) == b,
            r matches Err(e) ==> e is InvalidInput,
    {
        match b {
            0 => Ok(WorkingMode::CardReader),
            1 => Ok(WorkingMode::Controller),
            _ => Err(AgrgErr::InvalidInput(String::from_str("working mode byte out of range"))),
        }
    }

    /// The wire byte of this mode.
    pub fn as_byte(&self) -> (r: u8)
        ensures
            r == working_mode_byte(*self),
    {
        match self {
            WorkingMode::CardReader => 0,
            WorkingMode::Controller => 1,
        }
    }
}

impl PinpadMode {
    /// Decode a pinpad-mode byte; any byte outside the range is rejected.
    pub fn from_byte(b: u8) -> (r: Result<Self, AgrgErr>)
        ensures
            r is Ok <==> b < 4,
            r matches Ok(m) ==> pinpad_mode_byte(m) == b,
            r matches Err(e) ==> e is InvalidInput,
    {
        match b {
            0 => Ok(PinpadMode::Wiegand6),
            1 => Ok(PinpadMode::Wiegand26Hex),
            2 => Ok(PinpadMode::Wiegand26Dec),
            3 => Ok(PinpadMode::Off),
            _ => Err(AgrgErr::InvalidInput(String::from_str("pinpad mode byte out of range"))),
        }
    }

    /// The wire byte of this mode.
    pub fn as_byte(&self) -> (r: u8)
        ensures
            r == pinpad_mode_byte(*self),
    {
        match self {
            PinpadMode::Wiegand6 => 0,
            PinpadMode::Wiegand26Hex => 1,
            PinpadMode::Wiegand26Dec => 2,
            PinpadMode::Off => 3,
        }
    }
}

impl ReaderMode {
    /// Decode a reader-mode byte; any byte outside the range is rejected.
    pub fn from_byte(b: u8) -> (r: Result<Self, AgrgErr>)
        ensures
            r is Ok <==> b < 4,
            r matches Ok(m) ==> reader_mode_byte(m) == b,
            r matches Err(e) ==> e is InvalidInput,
    {
        match b {
            0 => Ok(ReaderMode::Wiegand26),
            1 => Ok(ReaderMode::Wiegand34),
            2 => Ok(ReaderMode::Off),
            3 => Ok(ReaderMode::Wiegand58),
            _ => Err(AgrgErr::InvalidInput(String::from_str("reader mode byte out of range"))),
        }
    }

    /// The wire byte of this mode.
    pub fn as_byte(&self) -> (r: u8)
        ensures
            r == reader_mode_byte(*self),
    {
        match self {
            ReaderMode::Wiegand26 => 0,
            ReaderMode::Wiegand34 => 1,
            ReaderMode::Off => 2,
            ReaderMode::Wiegand58 => 3,
        }
    }
}

impl AccessMode {
    /// Decode an access-mode byte; any byte outside the range is rejected.
    pub fn from_byte(b: u8) -> (r: Result<Self, AgrgErr>)
        ensures
            r is Ok <==> b < 4,
            r matches Ok(m) ==> access_mode_byte(m) == b,
            r matches Err(e) ==> e is InvalidInput,
    {
        match b {
            0 => Ok(AccessMode::PinOrCard),
            1 => Ok(AccessMode::Pin),
            2 => Ok(AccessMode::Card),
            3 => Ok(AccessMode::PinAndCard),
            _ => Err(AgrgErr::InvalidInput(String::from_str("access mode byte out of range"))),
        }
    }

    /// The wire byte of this mode.
    pub fn as_byte(&self) -> (r: u8)
        ensures
            r == access_mode_byte(*self),
    {
        match self {
            AccessMode::PinOrCard => 0,
            AccessMode::Pin => 1,
            AccessMode::Card => 2,
            AccessMode::PinAndCard => 3,
        }
    }
}

impl DeviceSettings {
    /// Decode a 16-byte settings record. Rejects any other length and any
    /// mode byte outside its enum's range; the admin-password bytes are
    /// carried over unchecked, as the device may hold uninitialized memory
    /// there.
    pub fn from_bytes(bytes: &[u8]) -> (r: Result<Self, AgrgErr>)
        ensures
            r is Ok <==> bytes@.len() == 16 && settings_modes_ok(bytes@),
            r matches Ok(s) ==> {
                &&& working_mode_byte(s.working_mode) == bytes@[0]
                &&& pinpad_mode_byte(s.pinpad_mode) == bytes@[1]
                &&& reader_mode_byte(s.reader_mode) == bytes@[2]
                &&& access_mode_byte(s.access_mode) == bytes@[3]
                &&& s.admin_password@ == bytes@.subrange(4, 10)
            },
            r matches Err(e) ==> e is InvalidInput,
    {
        if bytes.len() != 16 {
            return Err(AgrgErr::InvalidInput(
                String::from_str("settings record must be exactly 16 bytes"),
            ));
        }
        let working_mode = WorkingMode::from_byte(bytes[0])?;
        let pinpad_mode = PinpadMode::from_byte(bytes[1])?;
        let reader_mode = ReaderMode::from_byte(bytes[2])?;
        let access_mode = AccessMode::from_byte(bytes[3])?;
        let admin_password = [bytes[4], bytes[5], bytes[6], bytes[7], bytes[8], bytes[9]];
        proof {
            assert(admin_password@ =~= bytes@.subrange(4, 10));
        }
        Ok(DeviceSettings { working_mode, pinpad_mode, reader_mode, access_mode, admin_password })
    }

    /// Encode the record: the four mode bytes, the six password bytes,
    /// then `0xFF` padding up to 16 bytes.
    pub fn to_bytes(&self) -> (r: Vec<u8>)
        ensures
            r@ == settings_bytes(*self),
    {
        let mut bytes: Vec<u8> = Vec::new();
        bytes.push(self.working_mode.as_byte());
        bytes.push(self.pinpad_mode.as_byte());
        bytes.push(self.reader_mode.as_byte());
        bytes.push(self.access_mode.as_byte());
        let mut i: usize = 0;
        while i < 6
            invariant
                i <= 6,
                bytes@.len() == 4 + i,
                bytes@ == seq![
                    working_mode_byte(self.working_mode),
                    pinpad_mode_byte(self.pinpad_mode),
                    reader_mode_byte(self.reader_mode),
                    access_mode_byte(self.access_mode),
                ] + self.admin_password@.take(i as int),
            decreases 6 - i,
        {
            bytes.push(self.admin_password[i]);
            proof {
                assert(self.admin_password@.take(i + 1) =~= self.admin_password@.take(i as int).push(
                    self.admin_password@[i as int],
                ));
                assert(bytes@ =~= seq![
                    working_mode_byte(self.working_mode),
                    pinpad_mode_byte(self.pinpad_mode),
                    reader_mode_byte(self.reader_mode),
                    access_mode_byte(self.access_mode),
                ] + self.admin_password@.take(i + 1));
            }
            i = i + 1;
        }
        bytes.push(0xFF);
        bytes.push(0xFF);
        bytes.push(0xFF);
        bytes.push(0xFF);
        bytes.push(0xFF);
        bytes.push(0xFF);
        proof {
            assert(self.admin_password@.take(6) =~= self.admin_password@);
            assert(bytes@ =~= settings_bytes(*self));
        }
        bytes
    }
}

/// Law: decoding the encoding of any settings record yields that record.
/// `y` stands for what `from_bytes(to_bytes(x))` returns, characterized by
/// the two functions' contracts.
pub proof fn lemma_settings_round_trip(x: DeviceSettings, y: DeviceSettings)
    requires
        working_mode_byte(y.working_mode) == settings_bytes(x)[0],
        pinpad_mode_byte(y.pinpad_mode) == settings_bytes(x)[1],
        reader_mode_byte(y.reader_mode) == settings_bytes(x)[2],
        access_mode_byte(y.access_mode) == settings_bytes(x)[3],
        y.admin_password@ == settings_bytes(x).subrange(4, 10),
    ensures
        settings_bytes(x).len() == 16,
        settings_modes_ok(settings_bytes(x)),
        y == x,
{
    broadcast use vstd::array::group_array_axioms;

    assert(settings_bytes(x).subrange(4, 10) =~= x.admin_password@);
    lemma_mode_bytes_injective(x, y);
    assert(y.admin_password@ =~= x.admin_password@);
    assert(y.admin_password == x.admin_password);
}

/// The four mode-byte encodings are injective.
proof fn lemma_mode_bytes_injective(x: DeviceSettings, y: DeviceSettings)
    requires
        working_mode_byte(y.working_mode) == working_mode_byte(x.working_mode),
        pinpad_mode_byte(y.pinpad_mode) == pinpad_mode_byte(x.pinpad_mode),
        reader_mode_byte(y.reader_mode) == reader_mode_byte(x.reader_mode),
        access_mode_byte(y.access_mode) == access_mode_byte(x.access_mode),
    ensures
        y.working_mode == x.working_mode,
        y.pinpad_mode == x.pinpad_mode,
        y.reader_mode == x.reader_mode,
        y.access_mode == x.access_mode,
{
}

} // verus!
