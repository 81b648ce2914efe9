//! Host-side frame protocol engine for a bench power supply that talks over a
//! 64-byte HID report channel: opcode registry, payload codecs, frame codec
//! with CRC-16/MODBUS validation, and the bounded retry session machine.

pub mod bytes;
pub mod codec;
pub mod crc;
pub mod data;
pub mod error;
pub mod facade;
pub mod frame;
pub mod opcode;
pub mod session;

pub use data::BasicInfo;
pub use data::BasicSet;
pub use data::DeviceInfo;
pub use data::OperationResult;
pub use data::OutputState;
pub use data::SystemInfo;
pub use error::OpenDP100Error;
pub use opcode::OpCode;
