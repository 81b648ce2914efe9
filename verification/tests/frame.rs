use open_dp100::frame::{
    deserialize_in_frame, serialize_out_frame, Frame, FrameError, FRAME_LEN, MARKER_IN,
    MARKER_OUT, PAYLOAD_CAPACITY,
};
use open_dp100::opcode::OpCode;
use open_dp100::OpenDP100Error;

/// The test double standing in for the device: a 64-byte inbound buffer with
/// the device-to-host marker and a freshly computed CRC-16/MODBUS.
fn make_inbound(op_byte: u8, serial: u8, payload: &[u8]) -> Vec<u8> {
    assert!(payload.len() <= PAYLOAD_CAPACITY);
    let mut buf = vec![0u8; FRAME_LEN];
    buf[0] = MARKER_IN;
    buf[1] = op_byte;
    buf[2] = serial;
    buf[3] = payload.len() as u8;
    buf[4..4 + payload.len()].copy_from_slice(payload);
    let crc = crc16::State::<crc16::MODBUS>::calculate(&buf[0..4 + payload.len()]);
    buf[4 + payload.len()] = (crc & 0xff) as u8;
    buf[5 + payload.len()] = (crc >> 8) as u8;
    buf
}

#[test]
fn serialize_layout_and_crc() {
    // Cross-check the library's serializer, its checksum included, against an
    // independent computation with the crc16 crate.
    let payload = [1u8, 2, 3, 4, 5];
    let frame = Frame::new(OpCode::BasicSet, &payload).unwrap();
    let out = serialize_out_frame(&frame);
    assert_eq!(out.len(), 64);
    assert_eq!(out[0], MARKER_OUT);
    assert_eq!(out[1], 0x35);
    assert_eq!(out[2], 0);
    assert_eq!(out[3], 5);
    assert_eq!(&out[4..9], &payload);
    let crc = crc16::State::<crc16::MODBUS>::calculate(&out[0..9]);
    assert_eq!(out[9], (crc & 0xff) as u8);
    assert_eq!(out[10], (crc >> 8) as u8);
    assert!(out[11..].iter().all(|&b| b == 0));
}

#[test]
fn frame_round_trip_via_test_double() {
    // Encode, then flip the marker to the inbound one and recompute the CRC,
    // as the device would; decoding must recover opcode and payload.
    let payload: Vec<u8> = (0u8..58).collect();
    let frame = Frame::new(OpCode::DeviceInfo, &payload).unwrap();
    let mut buf = serialize_out_frame(&frame);
    buf[0] = MARKER_IN;
    let crc = crc16::State::<crc16::MODBUS>::calculate(&buf[0..4 + payload.len()]);
    buf[4 + payload.len()] = (crc & 0xff) as u8;
    buf[5 + payload.len()] = (crc >> 8) as u8;
    let decoded = deserialize_in_frame(&buf).unwrap();
    assert_eq!(decoded.op_code, OpCode::DeviceInfo);
    assert_eq!(decoded.serial_num, 0);
    assert_eq!(decoded.payload, payload);
}

#[test]
fn frame_round_trip_every_opcode() {
    for (op, byte) in [
        (OpCode::DeviceInfo, 0x10u8),
        (OpCode::BasicInfo, 0x30),
        (OpCode::BasicSet, 0x35),
        (OpCode::SystemInfo, 0x40),
        (OpCode::ScanOut, 0x50),
        (OpCode::SerialOut, 0x55),
    ] {
        let buf = make_inbound(byte, 9, &[0xaa, 0xbb]);
        let decoded = deserialize_in_frame(&buf).unwrap();
        assert_eq!(decoded.op_code, op);
        assert_eq!(decoded.serial_num, 9);
        assert_eq!(decoded.payload, vec![0xaa, 0xbb]);
    }
}

#[test]
fn empty_payload_round_trip() {
    let buf = make_inbound(0x30, 0, &[]);
    let decoded = deserialize_in_frame(&buf).unwrap();
    assert_eq!(decoded.op_code, OpCode::BasicInfo);
    assert_eq!(decoded.payload, Vec::<u8>::new());
}

#[test]
fn crc_sensitivity_bit_flips() {
    // Flip every single bit of the checked region of a valid frame: decoding
    // must always fail, and a flip anywhere past the opcode and length bytes
    // must be caught by the checksum as InvalidCrc.
    let payload: Vec<u8> = (10u8..26).collect(); // a representative 16-byte payload
    let good = make_inbound(0x30, 0, &payload);
    assert!(deserialize_in_frame(&good).is_ok());
    for byte_idx in 0..4 + payload.len() {
        for bit in 0..8 {
            let mut buf = good.clone();
            buf[byte_idx] ^= 1 << bit;
            let res = deserialize_in_frame(&buf);
            assert!(res.is_err(), "flip at byte {byte_idx} bit {bit} was accepted");
            match byte_idx {
                0 => assert!(matches!(res, Err(FrameError::UnknownHeader))),
                1 => assert!(matches!(
                    res,
                    Err(FrameError::InvalidOpCode) | Err(FrameError::InvalidCrc)
                )),
                3 => assert!(matches!(
                    res,
                    Err(FrameError::DataTooLong) | Err(FrameError::InvalidCrc)
                )),
                _ => assert!(matches!(res, Err(FrameError::InvalidCrc))),
            }
        }
    }
}

#[test]
fn crc_sensitivity_stored_checksum() {
    // Corrupting the stored checksum itself is caught too.
    let payload = [5u8; 10];
    let good = make_inbound(0x35, 0, &payload);
    for byte_idx in 14..16 {
        for bit in 0..8 {
            let mut buf = good.clone();
            buf[byte_idx] ^= 1 << bit;
            assert!(matches!(deserialize_in_frame(&buf), Err(FrameError::InvalidCrc)));
        }
    }
}

#[test]
fn unknown_marker_always_rejected() {
    // Any first byte other than the device-to-host marker fails as
    // UnknownHeader, whatever the rest of the buffer holds.
    let payload = [1u8, 2, 3];
    for marker in 0..=255u8 {
        if marker == MARKER_IN {
            continue;
        }
        let mut buf = make_inbound(0x30, 0, &payload);
        buf[0] = marker;
        assert!(matches!(deserialize_in_frame(&buf), Err(FrameError::UnknownHeader)));
    }
}

#[test]
fn unknown_opcode_rejected() {
    let known = [0x10u8, 0x30, 0x35, 0x40, 0x50, 0x55];
    for op_byte in 0..=255u8 {
        let buf = make_inbound(op_byte, 0, &[7, 8, 9]);
        let res = deserialize_in_frame(&buf);
        if known.contains(&op_byte) {
            assert!(res.is_ok());
        } else {
            assert!(matches!(res, Err(FrameError::InvalidOpCode)));
        }
    }
}

#[test]
fn declared_length_over_capacity_rejected() {
    // Every over-capacity length byte is rejected as DataTooLong even though
    // the checksum region is garbage: the length check comes first.
    for len_byte in 59..=255u8 {
        let mut buf = vec![0u8; FRAME_LEN];
        buf[0] = MARKER_IN;
        buf[1] = 0x30;
        buf[3] = len_byte;
        assert!(matches!(deserialize_in_frame(&buf), Err(FrameError::DataTooLong)));
    }
}

#[test]
fn declared_length_at_capacity_checked_normally() {
    let payload = [0xcdu8; 58];
    let buf = make_inbound(0x30, 0, &payload);
    let decoded = deserialize_in_frame(&buf).unwrap();
    assert_eq!(decoded.payload.len(), 58);
}

#[test]
fn frame_new_rejects_oversized_payload() {
    let too_long = [0u8; 59];
    assert!(matches!(Frame::new(OpCode::BasicSet, &too_long), Err(FrameError::DataTooLong)));
    let just_fits = [0u8; 58];
    assert!(Frame::new(OpCode::BasicSet, &just_fits).is_ok());
}

#[test]
fn frame_append_data_bounds() {
    let mut frame = Frame::new(OpCode::BasicSet, &[1, 2, 3]).unwrap();
    assert!(frame.append_data(&[4, 5]).is_ok());
    assert_eq!(frame.data(), &[1, 2, 3, 4, 5]);
    let overflow = [0u8; 54];
    assert!(matches!(frame.append_data(&overflow), Err(OpenDP100Error::INVALID_PARAM)));
    // The failed append left the frame unchanged.
    assert_eq!(frame.data(), &[1, 2, 3, 4, 5]);
    let fits = [0u8; 53];
    assert!(frame.append_data(&fits).is_ok());
    assert_eq!(frame.data().len(), 58);
}

#[test]
fn frame_empty_defaults() {
    let f = Frame::empty();
    assert_eq!(f.op_code, OpCode::BasicInfo);
    assert_eq!(f.serial_num, 0);
    assert!(f.payload.is_empty());
}
