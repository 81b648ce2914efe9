//! Error taxonomy of the driver as a caller sees it: device-communication
//! failures, driver-initialization failures, and rejected parameters.

use vstd::prelude::*;

verus! {

/// The externally visible failure of a driver call.
#[derive(Clone, Copy, Debug, PartialEq, Eq, Structural)]
#[allow(non_camel_case_types)]
pub enum OpenDP100Error {
    /// The device did not answer usably: a transport failure, a malformed
    /// frame, an opcode mismatch after the retry budget, or a rejected write.
    DEVICE,
    /// The underlying HID access layer could not be initialized.
    DRIVER,
    /// A caller-supplied parameter was out of range; no device traffic was
    /// attempted.
    INVALID_PARAM,
}

} // verus!
