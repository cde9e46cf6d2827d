//! Codec and protocol library for the AGRG SH-D access-control door handle.
//!
//! The device exposes a flat 0x8000-byte memory image over a half-duplex
//! serial link: a 16-byte settings record, a 255-slot credential table and a
//! 1792-slot event journal, all in fixed 16-byte records. This crate holds
//! the verified core: the byte-level conventions (`0xFF` means empty,
//! packed-decimal date fields), the record codecs, the memory map, and the
//! framing of the serial commands. Opening ports and moving bytes over the
//! wire is left to the embedding application.

pub mod bytes;
pub mod cards;
pub mod error;
pub mod input;
pub mod journal;
pub mod memmap;
pub mod settings;
pub mod text;
pub mod transport;

pub use bytes::trim_empty;
pub use cards::{pin_to_bytes, rfid_to_bytes, Card};
pub use error::AgrgErr;
pub use journal::{EventType, JournalEntry};
pub use settings::{AccessMode, DeviceSettings, PinpadMode, ReaderMode, WorkingMode};
pub use transport::{check_handle, datetime_to_bytes, get_datetime, get_text, set_datetime,
    set_text, MemDump};
