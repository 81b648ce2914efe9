//! Request planning for the high-level operations: the fixed request frame
//! of each query, the overloaded slot-index command selector of
//! channel-config requests, the output-toggle short-circuit decision, and
//! the interpretation of a write acknowledgement.

use vstd::prelude::*;

use crate::data::BasicSet;
use crate::data::OperationResult;
use crate::data::OpResult;
use crate::data::OutputState;
use crate::error::OpenDP100Error;
use crate::frame::Frame;
use crate::frame::FrameView;
use crate::opcode::OpCode;

verus! {

/// The number of stored output-channel configuration slots; valid slot
/// indices are `0` to `SLOT_COUNT - 1`.
pub const SLOT_COUNT: u8 = 10;

/// Sentinel index byte asking for the currently active slot's config.
pub const ACTIVE_SLOT_SENTINEL: u8 = 0x80;

/// Index-byte base marking "persist to slot, do not switch the active slot".
pub const WRITE_BASE: u8 = 0x20;

/// Index-byte base marking "persist to slot and make it the active slot".
pub const WRITE_SWITCH_BASE: u8 = 0xa0;

/// What a channel-config request asks the device to do. The wire has no
/// separate write opcode: the slot-index byte of the payload doubles as the
/// command selector, and this closed set replaces that arithmetic at call
/// sites.
#[derive(Clone, Copy, Debug, PartialEq, Eq, Structural)]
pub enum BasicSetCommand {
    /// Return the stored config of this slot.
    Read { slot: u8 },
    /// Return the config of the currently active slot.
    ReadActive,
    /// Persist to this slot; the active slot stays as it is.
    Write { slot: u8 },
    /// Persist to this slot and make it the active slot.
    WriteAndSwitch { slot: u8 },
}

impl BasicSetCommand {
    /// A named slot exists on the device.
    pub open spec fn wf(self) -> bool {
        match self {
            BasicSetCommand::Read { slot } => slot < SLOT_COUNT,
            BasicSetCommand::ReadActive => true,
            BasicSetCommand::Write { slot } => slot < SLOT_COUNT,
            BasicSetCommand::WriteAndSwitch { slot } => slot < SLOT_COUNT,
        }
    }

    /// The byte the payload's index field carries for this command: the
    /// plain slot on a read, the active-slot sentinel, or the slot offset by
    /// the command base on a write.
    pub open spec fn index_byte_spec(self) -> u8
        recommends
            self.wf(),
    {
        match self {
            BasicSetCommand::Read { slot } => slot,
            BasicSetCommand::ReadActive => ACTIVE_SLOT_SENTINEL,
            BasicSetCommand::Write { slot } => (WRITE_BASE + slot) as u8,
            BasicSetCommand::WriteAndSwitch { slot } => (WRITE_SWITCH_BASE + slot) as u8,
        }
    }

    /// Compute the command's index byte.
    pub fn index_byte(&self) -> (r: u8)
        requires
            self.wf(),
        ensures
            r == self.index_byte_spec(),
    {
        match *self {
            BasicSetCommand::Read { slot } => slot,
            BasicSetCommand::ReadActive => ACTIVE_SLOT_SENTINEL,
            BasicSetCommand::Write { slot } => WRITE_BASE + slot,
            BasicSetCommand::WriteAndSwitch { slot } => WRITE_SWITCH_BASE + slot,
        }
    }
}

/// The request frame of a device-identity query: empty payload.
pub fn device_info_request() -> (r: Frame)
    ensures
        r@ == (FrameView { op_code: OpCode::DeviceInfo, serial_num: 0, payload: Seq::<u8>::empty() }),
        r.wf(),
{
    Frame { op_code: OpCode::DeviceInfo, serial_num: 0, payload: Vec::new() }
}

/// The request frame of a live-telemetry query: empty payload.
pub fn basic_info_request() -> (r: Frame)
    ensures
        r@ == (FrameView { op_code: OpCode::BasicInfo, serial_num: 0, payload: Seq::<u8>::empty() }),
        r.wf(),
{
    Frame { op_code: OpCode::BasicInfo, serial_num: 0, payload: Vec::new() }
}

/// The request frame of a system-settings query: empty payload.
pub fn sys_info_request() -> (r: Frame)
    ensures
        r@ == (FrameView { op_code: OpCode::SystemInfo, serial_num: 0, payload: Seq::<u8>::empty() }),
        r.wf(),
{
    Frame { op_code: OpCode::SystemInfo, serial_num: 0, payload: Vec::new() }
}

/// The request frame that reads a stored slot's config or the active one: a
/// one-byte payload holding the command's index byte.
pub fn basic_set_read_request(cmd: &BasicSetCommand) -> (r: Frame)
    requires
        cmd.wf(),
        cmd is Read || cmd is ReadActive,
    ensures
        r@ == (FrameView {
            op_code: OpCode::BasicSet,
            serial_num: 0,
            payload: seq![cmd.index_byte_spec()],
        }),
        r.wf(),
{
    let mut payload: Vec<u8> = Vec::new();
    payload.push(cmd.index_byte());
    proof {
        assert(payload@ =~= seq![cmd.index_byte_spec()]);
    }
    Frame { op_code: OpCode::BasicSet, serial_num: 0, payload }
}

/// The payload of a configuration write: the config's wire image with the
/// index field overloaded as the command byte.
pub open spec fn write_payload_spec(config: BasicSet, switch: bool) -> Seq<u8>
    recommends
        config.index < SLOT_COUNT,
{
    let cmd = if switch {
        BasicSetCommand::WriteAndSwitch { slot: config.index }
    } else {
        BasicSetCommand::Write { slot: config.index }
    };
    (BasicSet { index: cmd.index_byte_spec(), ..config }).to_data_spec()
}

/// The request frame that persists `config` to its slot: write-and-switch
/// when `switch` is set, plain write otherwise. The device answers such a
/// request with an operation acknowledgement, not a config echo.
pub fn basic_set_write_request(config: &BasicSet, switch: bool) -> (r: Frame)
    requires
        config.index < SLOT_COUNT,
    ensures
        r@ == (FrameView {
            op_code: OpCode::BasicSet,
            serial_num: 0,
            payload: write_payload_spec(*config, switch),
        }),
        r.wf(),
{
    let cmd = if switch {
        BasicSetCommand::WriteAndSwitch { slot: config.index }
    } else {
        BasicSetCommand::Write { slot: config.index }
    };
    let on_wire = BasicSet { index: cmd.index_byte(), ..*config };
    Frame { op_code: OpCode::BasicSet, serial_num: 0, payload: on_wire.to_data() }
}

/// The write, if any, that brings the active config to the requested output
/// state: `None` exactly when the state already matches, so the caller
/// performs no write session; otherwise the same config with only the state
/// replaced.
pub fn plan_output_change(current: &BasicSet, on: OutputState) -> (r: Option<BasicSet>)
    ensures
        current.state == on ==> r is None,
        current.state != on ==> r == Some(BasicSet { state: on, ..*current }),
{
    if current.state == on {
        None
    } else {
        Some(BasicSet { state: on, ..*current })
    }
}

/// Validate a caller-supplied slot index before any wire traffic: only
/// slots `0` to `9` exist.
pub fn check_slot_index(idx: usize) -> (r: Result<u8, OpenDP100Error>)
    ensures
        idx < SLOT_COUNT ==> r == Ok::<u8, OpenDP100Error>(idx as u8),
        idx >= SLOT_COUNT ==> r == Err::<u8, OpenDP100Error>(OpenDP100Error::INVALID_PARAM),
{
    if idx < SLOT_COUNT as usize {
        Ok(idx as u8)
    } else {
        Err(OpenDP100Error::INVALID_PARAM)
    }
}

/// Interpret the acknowledgement payload of a configuration write: only the
/// exact one-byte payload carrying the success tag confirms the write;
/// anything else is a device error.
pub fn confirm_write_ack(data: &[u8]) -> (r: Result<(), OpenDP100Error>)
    ensures
        r is Ok <==> (data@.len() == 1 && OpResult::from_byte_spec(data@[0]) == OpResult::Success),
        r is Err ==> r == Err::<(), OpenDP100Error>(OpenDP100Error::DEVICE),
{
    match OperationResult::from_data(data) {
        Ok(ack) => {
            if ack.result == OpResult::Success {
                Ok(())
            } else {
                Err(OpenDP100Error::DEVICE)
            }
        },
        Err(_) => Err(OpenDP100Error::DEVICE),
    }
}

} // verus!
