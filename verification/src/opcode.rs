//! Registry of the protocol's operation identifiers: a closed set of wire
//! bytes, each naming one logical operation, with a total injective encoding
//! and a partial inverse that rejects every byte outside the set.

use vstd::prelude::*;

verus! {

/// Wire identifier selecting which logical operation (and so which payload
/// codec) a frame carries.
#[derive(Clone, Copy, Debug, PartialEq, Eq, Structural)]
pub enum OpCode {
    /// Device-identity query.
    DeviceInfo,
    /// Live-telemetry query.
    BasicInfo,
    /// Output-channel-configuration read or write.
    BasicSet,
    /// System-settings query.
    SystemInfo,
    /// Scan-sweep program write.
    ScanOut,
    /// Serial-sweep program write.
    SerialOut,
}

impl OpCode {
    /// The wire byte of this operation: a total, injective mapping.
    pub open spec fn to_byte_spec(self) -> u8 {
        match self {
            OpCode::DeviceInfo => 0x10,
            OpCode::BasicInfo => 0x30,
            OpCode::BasicSet => 0x35,
            OpCode::SystemInfo => 0x40,
            OpCode::ScanOut => 0x50,
            OpCode::SerialOut => 0x55,
        }
    }

    /// Partial inverse of `to_byte_spec`: `None` for every byte outside the
    /// closed set.
    pub open spec fn from_byte_spec(b: u8) -> Option<OpCode> {
        if b == 0x10 {
            Some(OpCode::DeviceInfo)
        } else if b == 0x30 {
            Some(OpCode::BasicInfo)
        } else if b == 0x35 {
            Some(OpCode::BasicSet)
        } else if b == 0x40 {
            Some(OpCode::SystemInfo)
        } else if b == 0x50 {
            Some(OpCode::ScanOut)
        } else if b == 0x55 {
            Some(OpCode::SerialOut)
        } else {
            None
        }
    }

    /// Convert the opcode to its wire byte.
    pub fn to_byte(self) -> (r: u8)
        ensures
            r == self.to_byte_spec(),
    {
        match self {
            OpCode::DeviceInfo => 0x10,
            OpCode::BasicInfo => 0x30,
            OpCode::BasicSet => 0x35,
            OpCode::SystemInfo => 0x40,
            OpCode::ScanOut => 0x50,
            OpCode::SerialOut => 0x55,
        }
    }

    /// Convert a wire byte back to its opcode; unknown bytes are rejected,
    /// never coerced.
    pub fn from_byte(b: u8) -> (r: Option<OpCode>)
        ensures
            r == Self::from_byte_spec(b),
    {
        if b == 0x10 {
            Some(OpCode::DeviceInfo)
        } else if b == 0x30 {
            Some(OpCode::BasicInfo)
        } else if b == 0x35 {
            Some(OpCode::BasicSet)
        } else if b == 0x40 {
            Some(OpCode::SystemInfo)
        } else if b == 0x50 {
            Some(OpCode::ScanOut)
        } else if b == 0x55 {
            Some(OpCode::SerialOut)
        } else {
            None
        }
    }
}

/// The byte mapping round-trips: decoding the encoded byte of any opcode
/// recovers that opcode, so the encoding is injective.
pub proof fn lemma_opcode_byte_round_trip(op: OpCode)
    ensures
        OpCode::from_byte_spec(op.to_byte_spec()) == Some(op),
{
}

} // verus!
