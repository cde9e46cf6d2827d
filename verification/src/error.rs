//! Error kinds shared by the codec, memory-map and transport layers.

use vstd::prelude::*;

verus! {

/// What went wrong during an exchange with the device or while
/// encoding or decoding one of its records.
///
/// `Serial` and `Io` are fatal for the operation that raised them and are
/// surfaced to the caller; `Parse` and `InvalidInput` are record-level and
/// recoverable by rejecting just the offending record.
#[derive(Debug, Clone, PartialEq, Eq)]
pub enum AgrgErr {
    Serial(String),
    Io(String),
    Parse(String),
    InvalidInput(String),
    Csv(String),
    Hex(String),
}

impl AgrgErr {
    /// A human-readable rendering: the kind of error, then its detail.
    pub fn message(&self) -> (r: String)
        ensures
            r@ == self.spec_message(),
    {
        match self {
            AgrgErr::Serial(s) => String::from_str("Serial Error: ").concat(s.as_str()),
            AgrgErr::Io(s) => String::from_str("IO Error: ").concat(s.as_str()),
            AgrgErr::Parse(s) => String::from_str("Parsing Error: ").concat(s.as_str()),
            AgrgErr::InvalidInput(s) => String::from_str("Input Error: ").concat(s.as_str()),
            AgrgErr::Csv(s) => String::from_str("CSV Error: ").concat(s.as_str()),
            AgrgErr::Hex(s) => String::from_str("HEX Error: ").concat(s.as_str()),
        }
    }

    /// The characters `message` returns.
    pub open spec fn spec_message(&self) -> Seq<char> {
        match self {
            AgrgErr::Serial(s) => "Serial Error: "@ + s@,
            AgrgErr::Io(s) => "IO Error: "@ + s@,
            AgrgErr::Parse(s) => "Parsing Error: "@ + s@,
            AgrgErr::InvalidInput(s) => "Input Error: "@ + s@,
            AgrgErr::Csv(s) => "CSV Error: "@ + s@,
            AgrgErr::Hex(s) => "HEX Error: "@ + s@,
        }
    }
}

} // verus!
