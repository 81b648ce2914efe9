//! Payload codecs: fixed-layout, little-endian binary encodings of each
//! operation's payload, with the round-trip laws that decoding an encoded
//! value recovers it field for field.

use vstd::prelude::*;

use crate::bytes::i16_from_u16_spec;
use crate::bytes::i8_from_u8_spec;
use crate::bytes::le16_spec;
use crate::bytes::u16_from_i16_spec;
use crate::bytes::u8_from_i8_spec;
use crate::data::BasicInfo;
use crate::data::BasicSet;
use crate::data::DeviceInfo;
use crate::data::DeviceInfoView;
use crate::data::OperationResult;
use crate::data::ScanOut;
use crate::data::SerialOut;
use crate::data::SystemInfo;
use crate::data::OpResult;
use crate::data::OutputState;
use crate::frame::FrameError;

verus! {

/// The low little-endian byte of `v`.
pub open spec fn lo_spec(v: u16) -> u8 {
    (v % 256) as u8
}

/// The high little-endian byte of `v`.
pub open spec fn hi_spec(v: u16) -> u8 {
    (v / 256) as u8
}

/// Push the little-endian image of `v` onto `out`.
fn push_u16_le(out: &mut Vec<u8>, v: u16)
    ensures
        final(out)@ == old(out)@ + seq![lo_spec(v), hi_spec(v)],
{
    out.push(crate::bytes::u16_lo(v));
    out.push(crate::bytes::u16_hi(v));
    proof {
        assert(out@ =~= old(out)@ + seq![lo_spec(v), hi_spec(v)]);
    }
}

impl BasicSet {
    /// The fixed wire length of an output-channel configuration.
    pub open spec fn encoded_len() -> int {
        10
    }

    /// The 10-byte wire image: index, state, then the four set-points
    /// little-endian.
    pub open spec fn to_data_spec(self) -> Seq<u8> {
        seq![
            self.index,
            self.state.to_byte_spec(),
            lo_spec(self.vo_set),
            hi_spec(self.vo_set),
            lo_spec(self.io_set),
            hi_spec(self.io_set),
            lo_spec(self.ovp_set),
            hi_spec(self.ovp_set),
            lo_spec(self.ocp_set),
            hi_spec(self.ocp_set),
        ]
    }

    /// The configuration a 10-byte wire image denotes; each field is read
    /// from its own dedicated byte range.
    pub open spec fn from_data_spec(data: Seq<u8>) -> BasicSet
        recommends
            data.len() == Self::encoded_len(),
    {
        BasicSet {
            index: data[0],
            state: OutputState::from_byte_spec(data[1]),
            vo_set: le16_spec(data[2], data[3]),
            io_set: le16_spec(data[4], data[5]),
            ovp_set: le16_spec(data[6], data[7]),
            ocp_set: le16_spec(data[8], data[9]),
        }
    }

    /// Encode the configuration; deterministic and never failing.
    pub fn to_data(&self) -> (r: Vec<u8>)
        ensures
            r@ == self.to_data_spec(),
    {
        let mut out: Vec<u8> = Vec::new();
        out.push(self.index);
        out.push(self.state.to_byte());
        push_u16_le(&mut out, self.vo_set);
        push_u16_le(&mut out, self.io_set);
        push_u16_le(&mut out, self.ovp_set);
        push_u16_le(&mut out, self.ocp_set);
        proof {
            assert(out@ =~= self.to_data_spec());
        }
        out
    }

    /// Decode a configuration payload; any length other than the fixed one
    /// is rejected.
    pub fn from_data(data: &[u8]) -> (r: Result<BasicSet, FrameError>)
        ensures
            data@.len() == Self::encoded_len() ==> r == Ok::<BasicSet, FrameError>(
                Self::from_data_spec(data@),
            ),
            data@.len() != Self::encoded_len() ==> r == Err::<BasicSet, FrameError>(
                FrameError::InvalidPayload,
            ),
    {
        if data.len() != 10 {
            return Err(FrameError::InvalidPayload);
        }
        Ok(
            BasicSet {
                index: data[0],
                state: OutputState::from_byte(data[1]),
                vo_set: crate::bytes::read_u16_le(data, 2),
                io_set: crate::bytes::read_u16_le(data, 4),
                ovp_set: crate::bytes::read_u16_le(data, 6),
                ocp_set: crate::bytes::read_u16_le(data, 8),
            },
        )
    }
}

/// Round-trip law: decoding the encoded image of any output-channel
/// configuration recovers it exactly.
pub proof fn lemma_basic_set_round_trip(x: BasicSet)
    ensures
        BasicSet::from_data_spec(x.to_data_spec()) == x,
{
}

impl OperationResult {
    /// The fixed wire length of an operation acknowledgement.
    pub open spec fn encoded_len() -> int {
        1
    }

    /// The single-byte wire image of the acknowledgement tag.
    pub open spec fn to_data_spec(self) -> Seq<u8> {
        seq![self.result.to_byte_spec()]
    }

    /// The acknowledgement a single-byte wire image denotes.
    pub open spec fn from_data_spec(data: Seq<u8>) -> OperationResult
        recommends
            data.len() == Self::encoded_len(),
    {
        OperationResult { result: OpResult::from_byte_spec(data[0]) }
    }

    /// Encode the acknowledgement.
    pub fn to_data(&self) -> (r: Vec<u8>)
        ensures
            r@ == self.to_data_spec(),
    {
        let mut out: Vec<u8> = Vec::new();
        out.push(self.result.to_byte());
        proof {
            assert(out@ =~= self.to_data_spec());
        }
        out
    }

    /// Decode an acknowledgement payload; any length other than one byte is
    /// rejected.
    pub fn from_data(data: &[u8]) -> (r: Result<OperationResult, FrameError>)
        ensures
            data@.len() == Self::encoded_len() ==> r == Ok::<OperationResult, FrameError>(
                Self::from_data_spec(data@),
            ),
            data@.len() != Self::encoded_len() ==> r == Err::<OperationResult, FrameError>(
                FrameError::InvalidPayload,
            ),
    {
        if data.len() != 1 {
            return Err(FrameError::InvalidPayload);
        }
        Ok(OperationResult { result: OpResult::from_byte(data[0]) })
    }
}

/// Round-trip law: decoding the encoded image of any acknowledgement
/// recovers it exactly.
pub proof fn lemma_operation_result_round_trip(x: OperationResult)
    ensures
        OperationResult::from_data_spec(x.to_data_spec()) == x,
{
}

impl BasicInfo {
    /// The fixed wire length of a telemetry snapshot.
    pub open spec fn encoded_len() -> int {
        16
    }

    /// The 16-byte wire image: the little-endian electrical and thermal
    /// readings, then the two mode bytes. The signed sensor travels as its
    /// two's-complement image.
    pub open spec fn to_data_spec(self) -> Seq<u8> {
        seq![
            lo_spec(self.vin),
            hi_spec(self.vin),
            lo_spec(self.vout),
            hi_spec(self.vout),
            lo_spec(self.iout),
            hi_spec(self.iout),
            lo_spec(self.vo_max),
            hi_spec(self.vo_max),
            lo_spec(self.temp1),
            hi_spec(self.temp1),
            lo_spec(u16_from_i16_spec(self.temp2)),
            hi_spec(u16_from_i16_spec(self.temp2)),
            lo_spec(self.dc_5v),
            hi_spec(self.dc_5v),
            self.out_mode,
            self.work_st,
        ]
    }

    /// The telemetry snapshot a 16-byte wire image denotes.
    pub open spec fn from_data_spec(data: Seq<u8>) -> BasicInfo
        recommends
            data.len() == Self::encoded_len(),
    {
        BasicInfo {
            vin: le16_spec(data[0], data[1]),
            vout: le16_spec(data[2], data[3]),
            iout: le16_spec(data[4], data[5]),
            vo_max: le16_spec(data[6], data[7]),
            temp1: le16_spec(data[8], data[9]),
            temp2: i16_from_u16_spec(le16_spec(data[10], data[11])),
            dc_5v: le16_spec(data[12], data[13]),
            out_mode: data[14],
            work_st: data[15],
        }
    }

    /// Encode the snapshot.
    pub fn to_data(&self) -> (r: Vec<u8>)
        ensures
            r@ == self.to_data_spec(),
    {
        let mut out: Vec<u8> = Vec::new();
        push_u16_le(&mut out, self.vin);
        push_u16_le(&mut out, self.vout);
        push_u16_le(&mut out, self.iout);
        push_u16_le(&mut out, self.vo_max);
        push_u16_le(&mut out, self.temp1);
        push_u16_le(&mut out, crate::bytes::u16_from_i16(self.temp2));
        push_u16_le(&mut out, self.dc_5v);
        out.push(self.out_mode);
        out.push(self.work_st);
        proof {
            assert(out@ =~= self.to_data_spec());
        }
        out
    }

    /// Decode a telemetry payload; any length other than the fixed one is
    /// rejected.
    pub fn from_data(data: &[u8]) -> (r: Result<BasicInfo, FrameError>)
        ensures
            data@.len() == Self::encoded_len() ==> r == Ok::<BasicInfo, FrameError>(
                Self::from_data_spec(data@),
            ),
            data@.len() != Self::encoded_len() ==> r == Err::<BasicInfo, FrameError>(
                FrameError::InvalidPayload,
            ),
    {
        if data.len() != 16 {
            return Err(FrameError::InvalidPayload);
        }
        Ok(
            BasicInfo {
                vin: crate::bytes::read_u16_le(data, 0),
                vout: crate::bytes::read_u16_le(data, 2),
                iout: crate::bytes::read_u16_le(data, 4),
                vo_max: crate::bytes::read_u16_le(data, 6),
                temp1: crate::bytes::read_u16_le(data, 8),
                temp2: crate::bytes::read_i16_le(data, 10),
                dc_5v: crate::bytes::read_u16_le(data, 12),
                out_mode: data[14],
                work_st: data[15],
            },
        )
    }
}

/// Round-trip law: decoding the encoded image of any telemetry snapshot
/// recovers it exactly, the signed sensor included.
pub proof fn lemma_basic_info_round_trip(x: BasicInfo)
    ensures
        BasicInfo::from_data_spec(x.to_data_spec()) == x,
{
    crate::bytes::lemma_i16_round_trip(x.temp2);
}

impl SystemInfo {
    /// The fixed wire length of the system settings.
    pub open spec fn encoded_len() -> int {
        6
    }

    /// The 6-byte wire image: backlight, the two protection thresholds
    /// little-endian, then the calibration code.
    pub open spec fn to_data_spec(self) -> Seq<u8> {
        seq![
            u8_from_i8_spec(self.blk_lev),
            lo_spec(self.opp),
            hi_spec(self.opp),
            lo_spec(self.opt),
            hi_spec(self.opt),
            u8_from_i8_spec(self.vol_kev),
        ]
    }

    /// The settings a 6-byte wire image denotes.
    pub open spec fn from_data_spec(data: Seq<u8>) -> SystemInfo
        recommends
            data.len() == Self::encoded_len(),
    {
        SystemInfo {
            blk_lev: i8_from_u8_spec(data[0]),
            opp: le16_spec(data[1], data[2]),
            opt: le16_spec(data[3], data[4]),
            vol_kev: i8_from_u8_spec(data[5]),
        }
    }

    /// Encode the settings.
    pub fn to_data(&self) -> (r: Vec<u8>)
        ensures
            r@ == self.to_data_spec(),
    {
        let mut out: Vec<u8> = Vec::new();
        out.push(crate::bytes::u8_from_i8(self.blk_lev));
        push_u16_le(&mut out, self.opp);
        push_u16_le(&mut out, self.opt);
        out.push(crate::bytes::u8_from_i8(self.vol_kev));
        proof {
            assert(out@ =~= self.to_data_spec());
        }
        out
    }

    /// Decode a settings payload; any length other than the fixed one is
    /// rejected.
    pub fn from_data(data: &[u8]) -> (r: Result<SystemInfo, FrameError>)
        ensures
            data@.len() == Self::encoded_len() ==> r == Ok::<SystemInfo, FrameError>(
                Self::from_data_spec(data@),
            ),
            data@.len() != Self::encoded_len() ==> r == Err::<SystemInfo, FrameError>(
                FrameError::InvalidPayload,
            ),
    {
        if data.len() != 6 {
            return Err(FrameError::InvalidPayload);
        }
        Ok(
            SystemInfo {
                blk_lev: crate::bytes::read_i8(data, 0),
                opp: crate::bytes::read_u16_le(data, 1),
                opt: crate::bytes::read_u16_le(data, 3),
                vol_kev: crate::bytes::read_i8(data, 5),
            },
        )
    }
}

/// Round-trip law: decoding the encoded image of any system settings
/// recovers them exactly, the signed bytes included.
pub proof fn lemma_system_info_round_trip(x: SystemInfo)
    ensures
        SystemInfo::from_data_spec(x.to_data_spec()) == x,
{
    crate::bytes::lemma_i8_round_trip(x.blk_lev);
    crate::bytes::lemma_i8_round_trip(x.vol_kev);
}

impl ScanOut {
    /// The fixed wire length of a scan-sweep program.
    pub open spec fn encoded_len() -> int {
        12
    }

    /// The 12-byte wire image of the sweep program.
    pub open spec fn to_data_spec(self) -> Seq<u8> {
        seq![
            self.on_off,
            lo_spec(self.on_time),
            hi_spec(self.on_time),
            lo_spec(self.out_val),
            hi_spec(self.out_val),
            self.scan_mode,
            lo_spec(self.start),
            hi_spec(self.start),
            lo_spec(self.end),
            hi_spec(self.end),
            lo_spec(self.step),
            hi_spec(self.step),
        ]
    }

    /// The sweep program a 12-byte wire image denotes.
    pub open spec fn from_data_spec(data: Seq<u8>) -> ScanOut
        recommends
            data.len() == Self::encoded_len(),
    {
        ScanOut {
            on_off: data[0],
            on_time: le16_spec(data[1], data[2]),
            out_val: le16_spec(data[3], data[4]),
            scan_mode: data[5],
            start: le16_spec(data[6], data[7]),
            end: le16_spec(data[8], data[9]),
            step: le16_spec(data[10], data[11]),
        }
    }

    /// Encode the sweep program.
    pub fn to_data(&self) -> (r: Vec<u8>)
        ensures
            r@ == self.to_data_spec(),
    {
        let mut out: Vec<u8> = Vec::new();
        out.push(self.on_off);
        push_u16_le(&mut out, self.on_time);
        push_u16_le(&mut out, self.out_val);
        out.push(self.scan_mode);
        push_u16_le(&mut out, self.start);
        push_u16_le(&mut out, self.end);
        push_u16_le(&mut out, self.step);
        proof {
            assert(out@ =~= self.to_data_spec());
        }
        out
    }

    /// Decode a sweep-program payload; any length other than the fixed one
    /// is rejected.
    pub fn from_data(data: &[u8]) -> (r: Result<ScanOut, FrameError>)
        ensures
            data@.len() == Self::encoded_len() ==> r == Ok::<ScanOut, FrameError>(
                Self::from_data_spec(data@),
            ),
            data@.len() != Self::encoded_len() ==> r == Err::<ScanOut, FrameError>(
                FrameError::InvalidPayload,
            ),
    {
        if data.len() != 12 {
            return Err(FrameError::InvalidPayload);
        }
        Ok(
            ScanOut {
                on_off: data[0],
                on_time: crate::bytes::read_u16_le(data, 1),
                out_val: crate::bytes::read_u16_le(data, 3),
                scan_mode: data[5],
                start: crate::bytes::read_u16_le(data, 6),
                end: crate::bytes::read_u16_le(data, 8),
                step: crate::bytes::read_u16_le(data, 10),
            },
        )
    }
}

/// Round-trip law: decoding the encoded image of any scan-sweep program
/// recovers it exactly.
pub proof fn lemma_scan_out_round_trip(x: ScanOut)
    ensures
        ScanOut::from_data_spec(x.to_data_spec()) == x,
{
}

impl SerialOut {
    /// The fixed wire length of a serial-sweep program.
    pub open spec fn encoded_len() -> int {
        10
    }

    /// The 10-byte wire image of the sweep program.
    pub open spec fn to_data_spec(self) -> Seq<u8> {
        seq![
            self.on_off,
            lo_spec(self.on_time),
            hi_spec(self.on_time),
            self.ser_start,
            self.ser_end,
            lo_spec(self.ser_vi),
            hi_spec(self.ser_vi),
            lo_spec(self.ser_vo),
            hi_spec(self.ser_vo),
            self.cycle_times,
        ]
    }

    /// The sweep program a 10-byte wire image denotes.
    pub open spec fn from_data_spec(data: Seq<u8>) -> SerialOut
        recommends
            data.len() == Self::encoded_len(),
    {
        SerialOut {
            on_off: data[0],
            on_time: le16_spec(data[1], data[2]),
            ser_start: data[3],
            ser_end: data[4],
            ser_vi: le16_spec(data[5], data[6]),
            ser_vo: le16_spec(data[7], data[8]),
            cycle_times: data[9],
        }
    }

    /// Encode the sweep program.
    pub fn to_data(&self) -> (r: Vec<u8>)
        ensures
            r@ == self.to_data_spec(),
    {
        let mut out: Vec<u8> = Vec::new();
        out.push(self.on_off);
        push_u16_le(&mut out, self.on_time);
        out.push(self.ser_start);
        out.push(self.ser_end);
        push_u16_le(&mut out, self.ser_vi);
        push_u16_le(&mut out, self.ser_vo);
        out.push(self.cycle_times);
        proof {
            assert(out@ =~= self.to_data_spec());
        }
        out
    }

    /// Decode a sweep-program payload; any length other than the fixed one
    /// is rejected.
    pub fn from_data(data: &[u8]) -> (r: Result<SerialOut, FrameError>)
        ensures
            data@.len() == Self::encoded_len() ==> r == Ok::<SerialOut, FrameError>(
                Self::from_data_spec(data@),
            ),
            data@.len() != Self::encoded_len() ==> r == Err::<SerialOut, FrameError>(
                FrameError::InvalidPayload,
            ),
    {
        if data.len() != 10 {
            return Err(FrameError::InvalidPayload);
        }
        Ok(
            SerialOut {
                on_off: data[0],
                on_time: crate::bytes::read_u16_le(data, 1),
                ser_start: data[3],
                ser_end: data[4],
                ser_vi: crate::bytes::read_u16_le(data, 5),
                ser_vo: crate::bytes::read_u16_le(data, 7),
                cycle_times: data[9],
            },
        )
    }
}

/// Round-trip law: decoding the encoded image of any serial-sweep program
/// recovers it exactly.
pub proof fn lemma_serial_out_round_trip(x: SerialOut)
    ensures
        SerialOut::from_data_spec(x.to_data_spec()) == x,
{
}

/// Push all of `data` onto `out`.
fn push_bytes(out: &mut Vec<u8>, data: &[u8])
    ensures
        final(out)@ == old(out)@ + data@,
{
    let mut i: usize = 0;
    while i < data.len()
        invariant
            i <= data@.len(),
            out@ == old(out)@ + data@.subrange(0, i as int),
        decreases data@.len() - i,
    {
        out.push(data[i]);
        proof {
            assert(out@ =~= old(out)@ + data@.subrange(0, i + 1));
        }
        i += 1;
    }
    proof {
        assert(out@ =~= old(out)@ + data@);
    }
}

impl DeviceInfoView {
    /// The fixed wire length of a device-identity record.
    pub open spec fn encoded_len() -> int {
        40
    }

    /// The 40-byte wire image: the type-name buffer verbatim, the four
    /// little-endian version words, the serial-number buffer verbatim, then
    /// the manufacture date.
    pub open spec fn to_data_spec(self) -> Seq<u8>
        recommends
            self.wf(),
    {
        self.dev_type + seq![
            lo_spec(self.hdw_ver),
            hi_spec(self.hdw_ver),
            lo_spec(self.app_ver),
            hi_spec(self.app_ver),
            lo_spec(self.boot_ver),
            hi_spec(self.boot_ver),
            lo_spec(self.run_area),
            hi_spec(self.run_area),
        ] + self.dev_sn + seq![lo_spec(self.year), hi_spec(self.year), self.moon, self.day]
    }

    /// The identity record a 40-byte wire image denotes; the fixed-width
    /// buffers are copied verbatim, untrimmed.
    pub open spec fn from_data_spec(data: Seq<u8>) -> DeviceInfoView
        recommends
            data.len() == Self::encoded_len(),
    {
        DeviceInfoView {
            dev_type: data.subrange(0, 16),
            hdw_ver: le16_spec(data[16], data[17]),
            app_ver: le16_spec(data[18], data[19]),
            boot_ver: le16_spec(data[20], data[21]),
            run_area: le16_spec(data[22], data[23]),
            dev_sn: data.subrange(24, 36),
            year: le16_spec(data[36], data[37]),
            moon: data[38],
            day: data[39],
        }
    }
}

impl DeviceInfo {
    /// Encode the identity record.
    pub fn to_data(&self) -> (r: Vec<u8>)
        requires
            self.wf(),
        ensures
            r@ == self@.to_data_spec(),
    {
        let mut out: Vec<u8> = Vec::new();
        push_bytes(&mut out, self.dev_type.as_slice());
        push_u16_le(&mut out, self.hdw_ver);
        push_u16_le(&mut out, self.app_ver);
        push_u16_le(&mut out, self.boot_ver);
        push_u16_le(&mut out, self.run_area);
        push_bytes(&mut out, self.dev_sn.as_slice());
        push_u16_le(&mut out, self.year);
        out.push(self.moon);
        out.push(self.day);
        proof {
            assert(out@ =~= self@.to_data_spec());
        }
        out
    }

    /// Decode an identity payload; any length other than the fixed one is
    /// rejected.
    pub fn from_data(data: &[u8]) -> (r: Result<DeviceInfo, FrameError>)
        ensures
            data@.len() == DeviceInfoView::encoded_len() ==> (r matches Ok(d) && d@
                == DeviceInfoView::from_data_spec(data@) && d.wf()),
            data@.len() != DeviceInfoView::encoded_len() ==> r == Err::<DeviceInfo, FrameError>(
                FrameError::InvalidPayload,
            ),
    {
        if data.len() != 40 {
            return Err(FrameError::InvalidPayload);
        }
        Ok(
            DeviceInfo {
                dev_type: vstd::slice::slice_to_vec(vstd::slice::slice_subrange(data, 0, 16)),
                hdw_ver: crate::bytes::read_u16_le(data, 16),
                app_ver: crate::bytes::read_u16_le(data, 18),
                boot_ver: crate::bytes::read_u16_le(data, 20),
                run_area: crate::bytes::read_u16_le(data, 22),
                dev_sn: vstd::slice::slice_to_vec(vstd::slice::slice_subrange(data, 24, 36)),
                year: crate::bytes::read_u16_le(data, 36),
                moon: data[38],
                day: data[39],
            },
        )
    }
}

/// Round-trip law: decoding the encoded image of any well-formed identity
/// record recovers it exactly, fixed-width buffers included.
pub proof fn lemma_device_info_round_trip(x: DeviceInfoView)
    requires
        x.wf(),
    ensures
        DeviceInfoView::from_data_spec(x.to_data_spec()) == x,
{
    let data = x.to_data_spec();
    assert(data.subrange(0, 16) =~= x.dev_type);
    assert(data.subrange(24, 36) =~= x.dev_sn);
}

} // verus!
