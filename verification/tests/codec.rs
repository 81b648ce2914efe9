use open_dp100::data::{
    BasicInfo, BasicSet, DeviceInfo, OperationResult, OpResult, OutputState, ScanOut, SerialOut,
    SystemInfo,
};
use open_dp100::frame::FrameError;

#[test]
fn basic_set_round_trip() {
    let x = BasicSet {
        index: 7,
        state: OutputState::On,
        vo_set: 12345,
        io_set: 4321,
        ovp_set: 36000,
        ocp_set: 10000,
    };
    let data = x.to_data();
    assert_eq!(data.len(), 10);
    assert_eq!(BasicSet::from_data(&data).unwrap(), x);
}

#[test]
fn basic_set_layout() {
    // Distinct values in every field so a mis-sliced range is caught: in
    // particular OVP must come from bytes 6..8, not from the IOUT range.
    let data: Vec<u8> = vec![3, 1, 0x10, 0x27, 0xe8, 0x03, 0x70, 0x17, 0xd0, 0x07];
    let x = BasicSet::from_data(&data).unwrap();
    assert_eq!(x.index, 3);
    assert_eq!(x.state, OutputState::On);
    assert_eq!(x.vo_set, 10000);
    assert_eq!(x.io_set, 1000);
    assert_eq!(x.ovp_set, 6000);
    assert_eq!(x.ocp_set, 2000);
}

#[test]
fn basic_set_wrong_length() {
    assert_eq!(BasicSet::from_data(&[0u8; 9]), Err(FrameError::InvalidPayload));
    assert_eq!(BasicSet::from_data(&[0u8; 11]), Err(FrameError::InvalidPayload));
}

#[test]
fn telemetry_scenario() {
    // vin=12000, vout=5000, iout=1000, vo_max=36000, temp1=250, temp2=-50,
    // dc_5v=5000, out_mode=1, work_st=0, all little-endian.
    let data: Vec<u8> = vec![
        0xe0, 0x2e, 0x88, 0x13, 0xe8, 0x03, 0xa0, 0x8c, 0xfa, 0x00, 0xce, 0xff, 0x88, 0x13, 0x01,
        0x00,
    ];
    let t = BasicInfo::from_data(&data).unwrap();
    assert_eq!(t.vin, 12000); // 12.00 V after the caller's /1000 scaling
    assert_eq!(t.vout, 5000); // 5.00 V
    assert_eq!(t.iout, 1000); // 1.00 A
    assert_eq!(t.vo_max, 36000);
    assert_eq!(t.temp1, 250);
    assert_eq!(t.temp2, -50);
    assert_eq!(t.dc_5v, 5000);
    assert_eq!(t.out_mode, 1);
    assert_eq!(t.work_st, 0);
}

#[test]
fn basic_info_round_trip() {
    let x = BasicInfo {
        vin: 65535,
        vout: 0,
        iout: 1,
        vo_max: 36000,
        temp1: 0,
        temp2: -32768,
        dc_5v: 5000,
        out_mode: 255,
        work_st: 7,
    };
    let data = x.to_data();
    assert_eq!(data.len(), 16);
    assert_eq!(BasicInfo::from_data(&data).unwrap(), x);
}

#[test]
fn basic_info_wrong_length() {
    assert_eq!(BasicInfo::from_data(&[0u8; 15]), Err(FrameError::InvalidPayload));
    assert_eq!(BasicInfo::from_data(&[]), Err(FrameError::InvalidPayload));
}

#[test]
fn system_info_round_trip() {
    let x = SystemInfo { blk_lev: -5, opp: 10050, opt: 800, vol_kev: 127 };
    let data = x.to_data();
    assert_eq!(data.len(), 6);
    assert_eq!(SystemInfo::from_data(&data).unwrap(), x);

    let y = SystemInfo { blk_lev: -128, opp: 0, opt: 65535, vol_kev: -1 };
    assert_eq!(SystemInfo::from_data(&y.to_data()).unwrap(), y);
}

#[test]
fn system_info_wrong_length() {
    assert_eq!(SystemInfo::from_data(&[0u8; 5]), Err(FrameError::InvalidPayload));
    assert_eq!(SystemInfo::from_data(&[0u8; 7]), Err(FrameError::InvalidPayload));
}

#[test]
fn scan_out_round_trip() {
    let x = ScanOut {
        on_off: 1,
        on_time: 500,
        out_val: 12000,
        scan_mode: 2,
        start: 100,
        end: 36000,
        step: 50,
    };
    let data = x.to_data();
    assert_eq!(data.len(), 12);
    assert_eq!(ScanOut::from_data(&data).unwrap(), x);
}

#[test]
fn scan_out_wrong_length() {
    assert_eq!(ScanOut::from_data(&[0u8; 11]), Err(FrameError::InvalidPayload));
}

#[test]
fn serial_out_round_trip() {
    let x = SerialOut {
        on_off: 0,
        on_time: 65535,
        ser_start: 3,
        ser_end: 9,
        ser_vi: 12000,
        ser_vo: 5000,
        cycle_times: 10,
    };
    let data = x.to_data();
    assert_eq!(data.len(), 10);
    assert_eq!(SerialOut::from_data(&data).unwrap(), x);
}

#[test]
fn serial_out_wrong_length() {
    assert_eq!(SerialOut::from_data(&[0u8; 12]), Err(FrameError::InvalidPayload));
}

#[test]
fn operation_result_round_trip() {
    for tag in [OpResult::Failed, OpResult::Success, OpResult::Unknown] {
        let x = OperationResult { result: tag };
        let data = x.to_data();
        assert_eq!(data.len(), 1);
        assert_eq!(OperationResult::from_data(&data).unwrap(), x);
    }
    // Every byte outside the two defined tags reads as Unknown.
    assert_eq!(
        OperationResult::from_data(&[0x37]).unwrap(),
        OperationResult { result: OpResult::Unknown }
    );
}

#[test]
fn operation_result_wrong_length() {
    assert_eq!(OperationResult::from_data(&[]), Err(FrameError::InvalidPayload));
    assert_eq!(OperationResult::from_data(&[1, 1]), Err(FrameError::InvalidPayload));
}

#[test]
fn device_info_round_trip() {
    let x = DeviceInfo {
        dev_type: b"DP100\0\0\0\0\0\0\0\0\0\0\0".to_vec(),
        hdw_ver: 14,
        app_ver: 12,
        boot_ver: 11,
        run_area: 1,
        dev_sn: vec![0, 0, 0, 0, 0, 0, 0, 0, 0xde, 0xad, 0xbe, 0xef],
        year: 2023,
        moon: 6,
        day: 15,
    };
    let data = x.to_data();
    assert_eq!(data.len(), 40);
    let y = DeviceInfo::from_data(&data).unwrap();
    assert_eq!(y.dev_type, x.dev_type);
    assert_eq!(y.hdw_ver, x.hdw_ver);
    assert_eq!(y.app_ver, x.app_ver);
    assert_eq!(y.boot_ver, x.boot_ver);
    assert_eq!(y.run_area, x.run_area);
    assert_eq!(y.dev_sn, x.dev_sn);
    assert_eq!(y.year, x.year);
    assert_eq!(y.moon, x.moon);
    assert_eq!(y.day, x.day);
}

#[test]
fn device_info_layout() {
    let mut data = vec![0u8; 40];
    data[0..5].copy_from_slice(b"DP100");
    data[16] = 14; // hdw_ver 1.4
    data[18] = 12; // app_ver 1.2
    data[36] = 0xe7; // year 2023 LE
    data[37] = 0x07;
    data[38] = 6;
    data[39] = 15;
    let d = DeviceInfo::from_data(&data).unwrap();
    assert_eq!(&d.dev_type[0..5], b"DP100");
    assert_eq!(d.hdw_ver, 14);
    assert_eq!(d.app_ver, 12);
    assert_eq!(d.year, 2023);
    assert_eq!(d.moon, 6);
    assert_eq!(d.day, 15);
}

#[test]
fn device_info_wrong_length() {
    assert!(matches!(DeviceInfo::from_data(&[0u8; 39]), Err(FrameError::InvalidPayload)));
    assert!(matches!(DeviceInfo::from_data(&[0u8; 41]), Err(FrameError::InvalidPayload)));
}
