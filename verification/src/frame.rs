//! The frame codec: building the 64-byte outbound HID report (marker, opcode,
//! serial number, length, payload, CRC-16/MODBUS) and parsing and validating
//! the inbound one, in the fixed order header, opcode, length bound, checksum.

use vstd::prelude::*;

use crate::bytes::le16_spec;
use crate::crc::crc16_modbus;
use crate::crc::crc16_modbus_spec;
use crate::opcode::OpCode;
use crate::error::OpenDP100Error;

verus! {

/// Every frame is one full HID report of this many bytes.
pub const FRAME_LEN: usize = 64;

/// The payload room left by the 4-byte header and the 2-byte checksum.
pub const PAYLOAD_CAPACITY: usize = 58;

/// Marker byte opening every host-to-device frame.
pub const MARKER_OUT: u8 = 0xfb;

/// Marker byte expected on every device-to-host frame.
pub const MARKER_IN: u8 = 0xfa;

/// A structural fault found while decoding an inbound frame or payload.
#[derive(Clone, Copy, Debug, PartialEq, Eq, Structural)]
pub enum FrameError {
    /// Byte 0 of an inbound buffer was not the device-to-host marker.
    UnknownHeader,
    /// The recomputed checksum did not match the stored one.
    InvalidCrc,
    /// The declared payload length exceeds the payload capacity.
    DataTooLong,
    /// The opcode byte is outside the closed registry.
    InvalidOpCode,
    /// A payload did not have its codec's exact fixed length.
    InvalidPayload,
}

/// The mathematical image of a frame: opcode, serial number and payload
/// bytes.
pub ghost struct FrameView {
    pub op_code: OpCode,
    pub serial_num: u8,
    pub payload: Seq<u8>,
}

/// One unit of wire exchange: an operation, a serial number (reserved,
/// currently always zero) and up to 58 payload bytes.
#[derive(Clone, Debug)]
pub struct Frame {
    pub op_code: OpCode,
    pub serial_num: u8,
    pub payload: Vec<u8>,
}

impl View for Frame {
    type V = FrameView;

    open spec fn view(&self) -> FrameView {
        FrameView { op_code: self.op_code, serial_num: self.serial_num, payload: self.payload@ }
    }
}

impl Frame {
    /// The total-length invariant: header, payload and checksum fit in one
    /// report.
    pub open spec fn wf(self) -> bool {
        self.payload@.len() <= PAYLOAD_CAPACITY
    }

    /// A blank frame: the telemetry opcode, serial number zero, no payload.
    pub fn empty() -> (r: Frame)
        ensures
            r@ == (FrameView { op_code: OpCode::BasicInfo, serial_num: 0, payload: Seq::<u8>::empty() }),
            r.wf(),
    {
        Frame { op_code: OpCode::BasicInfo, serial_num: 0, payload: Vec::new() }
    }

    /// Build a frame for one request. A payload that would violate the
    /// total-length invariant is rejected, never truncated.
    pub fn new(op_code: OpCode, data: &[u8]) -> (r: Result<Frame, FrameError>)
        ensures
            data@.len() <= PAYLOAD_CAPACITY ==> (r matches Ok(f) && f@ == (FrameView {
                op_code,
                serial_num: 0,
                payload: data@,
            }) && f.wf()),
            data@.len() > PAYLOAD_CAPACITY ==> r == Err::<Frame, FrameError>(
                FrameError::DataTooLong,
            ),
    {
        if data.len() > PAYLOAD_CAPACITY {
            Err(FrameError::DataTooLong)
        } else {
            Ok(Frame { op_code, serial_num: 0, payload: vstd::slice::slice_to_vec(data) })
        }
    }

    /// The payload bytes.
    pub fn data(&self) -> (r: &[u8])
        ensures
            r@ == self.payload@,
    {
        self.payload.as_slice()
    }

    /// Append bytes to the payload; fails, leaving the frame unchanged, if
    /// the result would overflow the payload capacity.
    pub fn append_data(&mut self, data: &[u8]) -> (r: Result<(), OpenDP100Error>)
        requires
            old(self).wf(),
        ensures
            old(self).payload@.len() + data@.len() <= PAYLOAD_CAPACITY ==> (r is Ok
                && final(self)@ == (FrameView {
                op_code: old(self).op_code,
                serial_num: old(self).serial_num,
                payload: old(self).payload@ + data@,
            }) && final(self).wf()),
            old(self).payload@.len() + data@.len() > PAYLOAD_CAPACITY ==> (r == Err::<(),
            OpenDP100Error>(OpenDP100Error::INVALID_PARAM) && *final(self) == *old(self)),
    {
        if data.len() > PAYLOAD_CAPACITY - self.payload.len() {
            return Err(OpenDP100Error::INVALID_PARAM);
        }
        let mut i: usize = 0;
        while i < data.len()
            invariant
                i <= data@.len(),
                self.op_code == old(self).op_code,
                self.serial_num == old(self).serial_num,
                self.payload@ == old(self).payload@ + data@.subrange(0, i as int),
                old(self).payload@.len() + data@.len() <= PAYLOAD_CAPACITY,
            decreases data@.len() - i,
        {
            self.payload.push(data[i]);
            proof {
                assert(self.payload@ =~= old(self).payload@ + data@.subrange(0, i + 1));
            }
            i += 1;
        }
        proof {
            assert(self.payload@ =~= old(self).payload@ + data@);
        }
        Ok(())
    }
}

/// The checked region of a frame: marker, opcode byte, serial number, length
/// byte, then the payload.
pub open spec fn frame_prefix_spec(marker: u8, op: OpCode, serial: u8, payload: Seq<u8>) -> Seq<
    u8,
> {
    seq![marker, op.to_byte_spec(), serial, payload.len() as u8] + payload
}

/// The full 64-byte image with the given marker: checked region, then the
/// checksum little-endian, then zero padding.
pub open spec fn framed_bytes_spec(marker: u8, op: OpCode, serial: u8, payload: Seq<u8>) -> Seq<
    u8,
>
    recommends
        payload.len() <= PAYLOAD_CAPACITY,
{
    let prefix = frame_prefix_spec(marker, op, serial, payload);
    let crc = crc16_modbus_spec(prefix);
    prefix + seq![(crc % 256) as u8, (crc / 256) as u8] + Seq::new(
        (PAYLOAD_CAPACITY - payload.len()) as nat,
        |i: int| 0u8,
    )
}

/// The 64-byte host-to-device image of a request.
pub open spec fn outbound_frame_spec(op: OpCode, payload: Seq<u8>) -> Seq<u8>
    recommends
        payload.len() <= PAYLOAD_CAPACITY,
{
    framed_bytes_spec(MARKER_OUT, op, 0, payload)
}

/// The 64-byte device-to-host image carrying the given response: what a
/// well-formed inbound buffer looks like.
pub open spec fn inbound_frame_spec(op: OpCode, serial: u8, payload: Seq<u8>) -> Seq<u8>
    recommends
        payload.len() <= PAYLOAD_CAPACITY,
{
    framed_bytes_spec(MARKER_IN, op, serial, payload)
}

/// What decoding an inbound 64-byte buffer yields: the checks run in the
/// fixed order marker, opcode, length bound, checksum, and only a buffer that
/// passes all four produces a frame.
pub open spec fn decode_frame_spec(buffer: Seq<u8>) -> Result<FrameView, FrameError>
    recommends
        buffer.len() == FRAME_LEN,
{
    if buffer[0] != MARKER_IN {
        Err(FrameError::UnknownHeader)
    } else {
        match OpCode::from_byte_spec(buffer[1]) {
            None => Err(FrameError::InvalidOpCode),
            Some(op) => {
                let len = buffer[3] as int;
                if len > PAYLOAD_CAPACITY {
                    Err(FrameError::DataTooLong)
                } else if crc16_modbus_spec(buffer.subrange(0, 4 + len)) != le16_spec(
                    buffer[4 + len],
                    buffer[5 + len],
                ) {
                    Err(FrameError::InvalidCrc)
                } else {
                    Ok(FrameView { op_code: op, serial_num: buffer[2], payload: buffer.subrange(4, 4 + len) })
                }
            },
        }
    }
}

/// Serialize a request into its 64-byte host-to-device image.
pub fn serialize_out_frame(frame: &Frame) -> (r: Vec<u8>)
    requires
        frame.wf(),
    ensures
        r@.len() == FRAME_LEN,
        r@ == outbound_frame_spec(frame.op_code, frame.payload@),
{
    let ghost prefix = frame_prefix_spec(MARKER_OUT, frame.op_code, 0, frame.payload@);
    let plen = frame.payload.len();
    let mut buf: Vec<u8> = Vec::new();
    buf.push(MARKER_OUT);
    buf.push(frame.op_code.to_byte());
    buf.push(0x00);
    buf.push(plen as u8);
    let mut i: usize = 0;
    while i < plen
        invariant
            i <= plen,
            plen == frame.payload@.len(),
            plen <= PAYLOAD_CAPACITY,
            buf@ == seq![
                MARKER_OUT,
                frame.op_code.to_byte_spec(),
                0u8,
                plen as u8,
            ] + frame.payload@.subrange(0, i as int),
        decreases plen - i,
    {
        buf.push(frame.payload[i]);
        proof {
            assert(buf@ =~= seq![
                MARKER_OUT,
                frame.op_code.to_byte_spec(),
                0u8,
                plen as u8,
            ] + frame.payload@.subrange(0, i + 1));
        }
        i += 1;
    }
    proof {
        assert(buf@ =~= prefix);
    }
    let crc = crc16_modbus(buf.as_slice());
    buf.push(crate::bytes::u16_lo(crc));
    buf.push(crate::bytes::u16_hi(crc));
    let ghost head = prefix + seq![((crc as u16) % 256) as u8, ((crc as u16) / 256) as u8];
    proof {
        assert(buf@ =~= head);
    }
    while buf.len() < FRAME_LEN
        invariant
            head.len() == plen + 6,
            plen <= PAYLOAD_CAPACITY,
            head.len() <= buf@.len() <= FRAME_LEN,
            buf@ == head + Seq::new((buf@.len() - head.len()) as nat, |j: int| 0u8),
        decreases FRAME_LEN - buf@.len(),
    {
        buf.push(0x00);
        proof {
            assert(buf@ =~= head + Seq::new((buf@.len() - head.len()) as nat, |j: int| 0u8));
        }
    }
    proof {
        assert(buf@ =~= outbound_frame_spec(frame.op_code, frame.payload@));
    }
    buf
}

/// Decode and validate an inbound 64-byte buffer: exactly the checks of
/// `decode_frame_spec`, in its order, with the payload copied out on success.
pub fn deserialize_in_frame(buffer: &[u8]) -> (r: Result<Frame, FrameError>)
    requires
        buffer@.len() == FRAME_LEN,
    ensures
        match r {
            Ok(f) => decode_frame_spec(buffer@) == Ok::<FrameView, FrameError>(f@) && f.wf(),
            Err(e) => decode_frame_spec(buffer@) == Err::<FrameView, FrameError>(e),
        },
{
    if buffer[0] != MARKER_IN {
        return Err(FrameError::UnknownHeader);
    }
    let op = match OpCode::from_byte(buffer[1]) {
        Some(op) => op,
        None => {
            return Err(FrameError::InvalidOpCode);
        },
    };
    let len = buffer[3] as usize;
    if len > PAYLOAD_CAPACITY {
        return Err(FrameError::DataTooLong);
    }
    let calc = crc16_modbus(vstd::slice::slice_subrange(buffer, 0, 4 + len));
    let stored = crate::bytes::read_u16_le(buffer, 4 + len);
    if calc != stored {
        return Err(FrameError::InvalidCrc);
    }
    let payload = vstd::slice::slice_to_vec(vstd::slice::slice_subrange(buffer, 4, 4 + len));
    Ok(Frame { op_code: op, serial_num: buffer[2], payload })
}

/// Frame round-trip law: a well-formed inbound image - device-to-host
/// marker, declared length, checksum over the checked region - decodes to
/// exactly the opcode, serial number and payload it was built from.
pub proof fn lemma_frame_round_trip(op: OpCode, serial: u8, payload: Seq<u8>)
    requires
        payload.len() <= PAYLOAD_CAPACITY,
    ensures
        decode_frame_spec(inbound_frame_spec(op, serial, payload)) == Ok::<FrameView, FrameError>(
            FrameView { op_code: op, serial_num: serial, payload },
        ),
{
    let buffer = inbound_frame_spec(op, serial, payload);
    let prefix = frame_prefix_spec(MARKER_IN, op, serial, payload);
    let crc = crc16_modbus_spec(prefix);
    assert(buffer[0] == MARKER_IN);
    assert(buffer[1] == op.to_byte_spec());
    assert(OpCode::from_byte_spec(op.to_byte_spec()) == Some(op));
    assert(buffer[2] == serial);
    assert(buffer[3] == payload.len() as u8);
    let len = buffer[3] as int;
    assert(len == payload.len());
    assert(buffer.subrange(0, 4 + len) =~= prefix);
    assert(buffer[4 + len] == (crc % 256) as u8);
    assert(buffer[5 + len] == (crc / 256) as u8);
    assert(le16_spec((crc % 256) as u8, (crc / 256) as u8) == crc);
    assert(buffer.subrange(4, 4 + len) =~= payload);
}

/// Unknown-marker law: an inbound buffer whose first byte is not the
/// device-to-host marker decodes to `UnknownHeader`, whatever the remaining
/// bytes hold.
pub proof fn lemma_unknown_header(buffer: Seq<u8>)
    requires
        buffer.len() == FRAME_LEN,
        buffer[0] != MARKER_IN,
    ensures
        decode_frame_spec(buffer) == Err::<FrameView, FrameError>(FrameError::UnknownHeader),
{
}

/// Unknown-opcode law: a marked inbound buffer whose opcode byte is outside
/// the closed registry decodes to `InvalidOpCode`, whatever the remaining
/// bytes hold.
pub proof fn lemma_invalid_opcode(buffer: Seq<u8>)
    requires
        buffer.len() == FRAME_LEN,
        buffer[0] == MARKER_IN,
        OpCode::from_byte_spec(buffer[1]) is None,
    ensures
        decode_frame_spec(buffer) == Err::<FrameView, FrameError>(FrameError::InvalidOpCode),
{
}

/// Length-bound law: a declared payload length over the capacity decodes to
/// `DataTooLong` whatever the checksum region holds, so the rejection never
/// depends on a checksum computation.
pub proof fn lemma_data_too_long(buffer: Seq<u8>)
    requires
        buffer.len() == FRAME_LEN,
        buffer[0] == MARKER_IN,
        OpCode::from_byte_spec(buffer[1]) is Some,
        buffer[3] > PAYLOAD_CAPACITY,
    ensures
        decode_frame_spec(buffer) == Err::<FrameView, FrameError>(FrameError::DataTooLong),
{
}

/// The inbound image a test double builds from an outbound one: the two
/// images of the same opcode, serial number and payload agree on every byte
/// but the marker and the two checksum bytes.
pub proof fn lemma_inbound_outbound_agree(op: OpCode, payload: Seq<u8>, i: int)
    requires
        payload.len() <= PAYLOAD_CAPACITY,
        0 <= i < FRAME_LEN,
        i != 0,
        i != 4 + payload.len(),
        i != 5 + payload.len(),
    ensures
        inbound_frame_spec(op, 0, payload)[i] == outbound_frame_spec(op, payload)[i],
{
}

} // verus!
