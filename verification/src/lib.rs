//! Verified core of a Bluetooth-to-USB gamepad bridge.
//!
//! A wireless gamepad's proprietary HID input reports are decoded into a
//! neutral [`universal_gamepad::UniversalGamepad`] value, and that value is
//! re-encoded as another gamepad's HID output report, byte for byte.  The
//! modules here hold the report codecs, the descriptor table with its
//! selection rules, and the decisions of the dataflow pipeline; device I/O
//! stays outside the library.

pub mod helper_fn;
pub mod hidapi_fn;
pub mod pipeline;
pub mod universal_gamepad;
pub mod usb_gamepad;
pub mod usb_gamepad_ps4;
pub mod usb_gamepad_ps5;

use vstd::prelude::*;

verus! {

/// Length of the raw input buffer handed over by the HID reader.
pub const HID_ARRAY_SIZE: usize = 78;

} // verus!
