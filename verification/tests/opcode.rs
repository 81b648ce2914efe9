use open_dp100::opcode::OpCode;

#[test]
fn opcode_bytes() {
    assert_eq!(OpCode::DeviceInfo.to_byte(), 0x10);
    assert_eq!(OpCode::BasicInfo.to_byte(), 0x30);
    assert_eq!(OpCode::BasicSet.to_byte(), 0x35);
    assert_eq!(OpCode::SystemInfo.to_byte(), 0x40);
    assert_eq!(OpCode::ScanOut.to_byte(), 0x50);
    assert_eq!(OpCode::SerialOut.to_byte(), 0x55);
}

#[test]
fn opcode_byte_round_trip() {
    for op in [
        OpCode::DeviceInfo,
        OpCode::BasicInfo,
        OpCode::BasicSet,
        OpCode::SystemInfo,
        OpCode::ScanOut,
        OpCode::SerialOut,
    ] {
        assert_eq!(OpCode::from_byte(op.to_byte()), Some(op));
    }
}

#[test]
fn unknown_opcode_bytes_rejected() {
    let known = [0x10u8, 0x30, 0x35, 0x40, 0x50, 0x55];
    for b in 0..=255u8 {
        if known.contains(&b) {
            assert!(OpCode::from_byte(b).is_some());
        } else {
            assert_eq!(OpCode::from_byte(b), None);
        }
    }
}
