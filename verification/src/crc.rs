//! The frame checksum: CRC-16/MODBUS (polynomial 0x8005 reflected, initial
//! value 0xFFFF), computed by the crc16 crate and named here so that frame
//! contracts can speak of it.

use vstd::prelude::*;

verus! {

/// The CRC-16/MODBUS checksum of a byte sequence: a pure function of the
/// bytes alone.
pub uninterp spec fn crc16_modbus_spec(data: Seq<u8>) -> u16;

/// Relies on `crc16::State::<MODBUS>::calculate`: a deterministic,
/// table-driven checksum of the message bytes alone.
#[verifier::external_body]
pub(crate) fn crc16_modbus(data: &[u8]) -> (r: u16)
    ensures
        r == crc16_modbus_spec(data@),
{
    crc16::State::<crc16::MODBUS>::calculate(data)
}

} // verus!
