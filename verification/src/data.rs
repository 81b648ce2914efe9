//! The typed values the protocol exchanges: device identity, live telemetry,
//! output-channel configuration, system settings, sweep programs, and the
//! success/failure tag a write operation returns.

use vstd::prelude::*;

verus! {

/// Immutable identity and version record returned by the device. Version
/// pairs are packed as `major * 10 + minor`; the text and serial buffers are
/// carried verbatim (trimming is a presentation concern).
#[derive(Clone, Debug)]
pub struct DeviceInfo {
    /// Fixed-width type-name buffer; always 16 bytes.
    pub dev_type: Vec<u8>,
    /// Hardware version, packed `major * 10 + minor`.
    pub hdw_ver: u16,
    /// Application firmware version, packed `major * 10 + minor`.
    pub app_ver: u16,
    /// Bootloader version, packed `major * 10 + minor`.
    pub boot_ver: u16,
    /// Firmware run-area code.
    pub run_area: u16,
    /// Fixed-width serial-number buffer; always 12 bytes.
    pub dev_sn: Vec<u8>,
    /// Manufacture year.
    pub year: u16,
    /// Manufacture month.
    pub moon: u8,
    /// Manufacture day.
    pub day: u8,
}

/// The mathematical image of a device-identity record.
pub ghost struct DeviceInfoView {
    pub dev_type: Seq<u8>,
    pub hdw_ver: u16,
    pub app_ver: u16,
    pub boot_ver: u16,
    pub run_area: u16,
    pub dev_sn: Seq<u8>,
    pub year: u16,
    pub moon: u8,
    pub day: u8,
}

impl DeviceInfoView {
    /// The fixed-width buffers hold exactly their wire widths.
    pub open spec fn wf(self) -> bool {
        self.dev_type.len() == 16 && self.dev_sn.len() == 12
    }
}

impl View for DeviceInfo {
    type V = DeviceInfoView;

    open spec fn view(&self) -> DeviceInfoView {
        DeviceInfoView {
            dev_type: self.dev_type@,
            hdw_ver: self.hdw_ver,
            app_ver: self.app_ver,
            boot_ver: self.boot_ver,
            run_area: self.run_area,
            dev_sn: self.dev_sn@,
            year: self.year,
            moon: self.moon,
            day: self.day,
        }
    }
}

impl DeviceInfo {
    /// The fixed-width buffers hold exactly their wire widths.
    pub open spec fn wf(self) -> bool {
        self@.wf()
    }
}

/// Whether the output channel is enabled.
#[derive(Clone, Copy, Debug, PartialEq, Eq, Structural)]
pub enum OutputState {
    On,
    Off,
}

impl OutputState {
    /// The wire byte of this state.
    pub open spec fn to_byte_spec(self) -> u8 {
        match self {
            OutputState::On => 0x01,
            OutputState::Off => 0x00,
        }
    }

    /// The state a wire byte denotes; any byte other than `0x01` reads as
    /// `Off`.
    pub open spec fn from_byte_spec(b: u8) -> OutputState {
        if b == 0x01 {
            OutputState::On
        } else {
            OutputState::Off
        }
    }

    /// Convert the state to its wire byte.
    pub fn to_byte(self) -> (r: u8)
        ensures
            r == self.to_byte_spec(),
    {
        match self {
            OutputState::On => 0x01,
            OutputState::Off => 0x00,
        }
    }

    /// Convert a wire byte to the state it denotes.
    pub fn from_byte(b: u8) -> (r: OutputState)
        ensures
            r == Self::from_byte_spec(b),
    {
        if b == 0x01 {
            OutputState::On
        } else {
            OutputState::Off
        }
    }
}

/// The mutable, persisted-on-device configuration of one of the 10 indexed
/// output slots. On plain reads and writes `index` is the slot, in `[0, 9]`;
/// an outbound write overloads it as a command selector (see the session
/// module's command type).
#[derive(Clone, Copy, Debug, PartialEq, Eq, Structural)]
pub struct BasicSet {
    /// Slot index in `[0, 9]`, or the overloaded command byte on the wire.
    pub index: u8,
    /// Output enabled or disabled.
    pub state: OutputState,
    /// Set-point voltage in millivolts.
    pub vo_set: u16,
    /// Set-point current in milliamps.
    pub io_set: u16,
    /// Over-voltage-protection threshold in millivolts.
    pub ovp_set: u16,
    /// Over-current-protection threshold in milliamps.
    pub ocp_set: u16,
}

/// Live telemetry snapshot, read-only.
#[derive(Clone, Copy, Debug, PartialEq, Eq, Structural)]
pub struct BasicInfo {
    /// Input voltage in millivolts.
    pub vin: u16,
    /// Output voltage in millivolts.
    pub vout: u16,
    /// Output current in milliamps.
    pub iout: u16,
    /// Maximum settable output voltage in millivolts.
    pub vo_max: u16,
    /// First temperature sensor in 0.1 degree Celsius units; unsigned, this
    /// sensor cannot report sub-zero.
    pub temp1: u16,
    /// Second temperature sensor in 0.1 degree Celsius units; signed.
    pub temp2: i16,
    /// Auxiliary 5 V rail voltage in millivolts.
    pub dc_5v: u16,
    /// Output-mode code.
    pub out_mode: u8,
    /// Work-state code.
    pub work_st: u8,
}

/// Device-wide settings.
#[derive(Clone, Copy, Debug, PartialEq, Eq, Structural)]
pub struct SystemInfo {
    /// Backlight level.
    pub blk_lev: i8,
    /// Over-power-protection threshold in 100 mW units.
    pub opp: u16,
    /// Over-temperature-protection threshold in 0.1 degree Celsius units.
    pub opt: u16,
    /// Voltage-scale / calibration code.
    pub vol_kev: i8,
}

/// Write-only configuration of an automated scan sweep.
#[derive(Clone, Copy, Debug, PartialEq, Eq, Structural)]
pub struct ScanOut {
    pub on_off: u8,
    pub on_time: u16,
    pub out_val: u16,
    pub scan_mode: u8,
    pub start: u16,
    pub end: u16,
    pub step: u16,
}

/// Write-only configuration of an automated serial sweep.
#[derive(Clone, Copy, Debug, PartialEq, Eq, Structural)]
pub struct SerialOut {
    pub on_off: u8,
    pub on_time: u16,
    pub ser_start: u8,
    pub ser_end: u8,
    pub ser_vi: u16,
    pub ser_vo: u16,
    pub cycle_times: u8,
}

/// The tag a write operation returns to confirm whether the device accepted
/// it.
#[derive(Clone, Copy, Debug, PartialEq, Eq, Structural)]
pub enum OpResult {
    Failed,
    Success,
    Unknown,
}

impl OpResult {
    /// The wire byte of this tag; `Unknown` stands for every byte outside
    /// the two defined ones and encodes as `0x02`.
    pub open spec fn to_byte_spec(self) -> u8 {
        match self {
            OpResult::Failed => 0x00,
            OpResult::Success => 0x01,
            OpResult::Unknown => 0x02,
        }
    }

    /// The tag a wire byte denotes.
    pub open spec fn from_byte_spec(b: u8) -> OpResult {
        if b == 0x00 {
            OpResult::Failed
        } else if b == 0x01 {
            OpResult::Success
        } else {
            OpResult::Unknown
        }
    }

    /// Convert the tag to its wire byte.
    pub fn to_byte(self) -> (r: u8)
        ensures
            r == self.to_byte_spec(),
    {
        match self {
            OpResult::Failed => 0x00,
            OpResult::Success => 0x01,
            OpResult::Unknown => 0x02,
        }
    }

    /// Convert a wire byte to the tag it denotes.
    pub fn from_byte(b: u8) -> (r: OpResult)
        ensures
            r == Self::from_byte_spec(b),
    {
        if b == 0x00 {
            OpResult::Failed
        } else if b == 0x01 {
            OpResult::Success
        } else {
            OpResult::Unknown
        }
    }
}

/// The acknowledgement payload of a write operation.
#[derive(Clone, Copy, Debug, PartialEq, Eq, Structural)]
pub struct OperationResult {
    pub result: OpResult,
}

} // verus!
