//! The output gamepad descriptors and the rules for choosing one.
//!
//! A [`Gamepad`] binds a model to its display name, its command-line
//! aliases, the least input report length its decoder accepts, and the exact
//! output report length its encoder produces.  The table holds two entries;
//! only the PS5 one is fully supported.

use vstd::prelude::*;
use vstd::string::StringSliceAdditionalSpecFns;

use crate::helper_fn::{contains_bytes, slice_contains};
use crate::hidapi_fn::{ps5_input_to_universal, spec_decode_ps5, GamepadModel, PS5_MIN_INPUT_LEN};
use crate::universal_gamepad::{spec_neutral, UniversalGamepad};
use crate::usb_gamepad_ps4::{ps4_universal_to_usb, spec_encode_ps4, PS4_MIN_INPUT_LEN, PS4_REPORT_LEN};
use crate::usb_gamepad_ps5::{ps5_universal_to_usb, spec_encode_ps5, PS5_REPORT_LEN};

verus! {

/// A raw input report was refused by a decoder.
#[derive(Clone, Copy, Debug, PartialEq, Eq, Structural)]
pub enum DecodeError {
    /// The report is shorter than the model's least accepted length.
    InputTooShort,
}

/// Why no output gamepad could be chosen from the command line.
#[derive(Clone, Copy, Debug, PartialEq, Eq, Structural)]
pub enum SelectError {
    /// The argument names a known gamepad whose output side is not usable.
    NotSupported,
    /// The argument names no known gamepad.
    NoMatch,
}

/// A static description of one output gamepad model.
#[derive(Clone, Copy, Debug, PartialEq, Eq)]
pub struct Gamepad {
    pub model: GamepadModel,
    /// Least raw input report length this model's decoder accepts.
    pub min_bt_report_size: usize,
    /// Exact length of every output report this model's encoder produces.
    pub report_length: usize,
    /// Whether the model is usable as the bridge's output side.
    pub is_supported: bool,
    /// Name shown to the user.
    pub display_name: &'static str,
    /// Strings a command-line argument may contain to choose this model.
    pub associated_args: [&'static str; 2],
}

impl Gamepad {
    /// The per-model length invariants every descriptor carries.
    pub open spec fn wf(self) -> bool {
        &&& self.model is PS5 ==> (self.min_bt_report_size == PS5_MIN_INPUT_LEN
            && self.report_length == PS5_REPORT_LEN)
        &&& self.model is PS4 ==> (self.min_bt_report_size == PS4_MIN_INPUT_LEN
            && self.report_length == PS4_REPORT_LEN)
    }

    /// Decodes one raw Bluetooth input report as this model, refusing any
    /// report shorter than the model's least accepted length before a single
    /// byte is read.
    pub fn bt_input_to_universal_gamepad(&self, bt_input: &Vec<u8>) -> (r: Result<
        UniversalGamepad,
        DecodeError,
    >)
        requires
            self.wf(),
        ensures
            match r {
                Ok(u) => {
                    &&& bt_input@.len() >= self.min_bt_report_size
                    &&& self.model is PS5 ==> u == spec_decode_ps5(bt_input@)
                    &&& self.model is PS4 ==> u == spec_neutral()
                },
                Err(e) => bt_input@.len() < self.min_bt_report_size && e is InputTooShort,
            },
    {
        if bt_input.len() < self.min_bt_report_size {
            return Err(DecodeError::InputTooShort);
        }
        match self.model {
            GamepadModel::PS5 => Ok(ps5_input_to_universal(bt_input.as_slice())),
            GamepadModel::PS4 => Ok(UniversalGamepad::neutral()),
        }
    }

    /// Encodes a universal state as this model's output report.  The result
    /// always has exactly `self.report_length` bytes; a caller may write it
    /// to the gadget endpoint unchecked.
    pub fn universal_gamepad_to_usb_output(&self, gamepad: &UniversalGamepad) -> (out: Vec<u8>)
        requires
            self.wf(),
        ensures
            out@.len() == self.report_length,
            self.model is PS5 ==> out@ == spec_encode_ps5(*gamepad),
            self.model is PS4 ==> out@ == spec_encode_ps4(*gamepad),
    {
        match self.model {
            GamepadModel::PS5 => ps5_universal_to_usb(gamepad),
            GamepadModel::PS4 => ps4_universal_to_usb(gamepad),
        }
    }

    /// Reports whether the given command-line argument contains one of this
    /// descriptor's aliases.
    pub fn matches_arg(&self, arg: &str) -> (r: bool)
        ensures
            r == (contains_bytes(arg.spec_bytes(), self.associated_args@[0].spec_bytes())
                || contains_bytes(arg.spec_bytes(), self.associated_args@[1].spec_bytes())),
    {
        let arg_bytes: &[u8] = arg.as_bytes();
        slice_contains(arg_bytes, self.associated_args[0].as_bytes()) || slice_contains(
            arg_bytes,
            self.associated_args[1].as_bytes(),
        )
    }
}

/// The descriptor for the PS5 model.
pub open spec fn is_dualsense(g: Gamepad) -> bool {
    &&& g.model is PS5
    &&& g.min_bt_report_size == PS5_MIN_INPUT_LEN
    &&& g.report_length == PS5_REPORT_LEN
    &&& g.is_supported
    &&& g.display_name@ == "DualSense (PS5)"@
    &&& g.associated_args@[0]@ == "ps5"@
    &&& g.associated_args@[1]@ == "dualsense"@
}

/// The descriptor for the PS4 model.
pub open spec fn is_dualshock(g: Gamepad) -> bool {
    &&& g.model is PS4
    &&& g.min_bt_report_size == PS4_MIN_INPUT_LEN
    &&& g.report_length == PS4_REPORT_LEN
    &&& !g.is_supported
    &&& g.display_name@ == "DualShock 4 (PS4)"@
    &&& g.associated_args@[0]@ == "ps4"@
    &&& g.associated_args@[1]@ == "dualshock"@
}

/// Builds the PS5 descriptor.
pub fn dualsense() -> (g: Gamepad)
    ensures
        is_dualsense(g),
        g.wf(),
{
    Gamepad {
        model: GamepadModel::PS5,
        min_bt_report_size: PS5_MIN_INPUT_LEN,
        report_length: PS5_REPORT_LEN,
        is_supported: true,
        display_name: "DualSense (PS5)",
        associated_args: ["ps5", "dualsense"],
    }
}

/// Builds the PS4 descriptor.
pub fn dualshock() -> (g: Gamepad)
    ensures
        is_dualshock(g),
        g.wf(),
{
    Gamepad {
        model: GamepadModel::PS4,
        min_bt_report_size: PS4_MIN_INPUT_LEN,
        report_length: PS4_REPORT_LEN,
        is_supported: false,
        display_name: "DualShock 4 (PS4)",
        associated_args: ["ps4", "dualshock"],
    }
}

/// The table of output gamepads, in the order the selector consults them.
pub fn output_gamepads() -> (v: Vec<Gamepad>)
    ensures
        v@.len() == 2,
        is_dualsense(v@[0]),
        is_dualshock(v@[1]),
        v@[0].wf(),
        v@[1].wf(),
{
    let mut v: Vec<Gamepad> = Vec::new();
    v.push(dualsense());
    v.push(dualshock());
    v
}

/// The argument names the PS5 descriptor: it contains one of its aliases.
pub open spec fn spec_matches_dualsense(arg: Seq<u8>) -> bool {
    contains_bytes(arg, "ps5".spec_bytes()) || contains_bytes(arg, "dualsense".spec_bytes())
}

/// The argument names the PS4 descriptor: it contains one of its aliases.
pub open spec fn spec_matches_dualshock(arg: Seq<u8>) -> bool {
    contains_bytes(arg, "ps4".spec_bytes()) || contains_bytes(arg, "dualshock".spec_bytes())
}

/// Chooses the output gamepad named by the command-line argument.
///
/// Descriptors are consulted in table order and the first whose alias occurs
/// in the argument wins; a match on an unsupported descriptor is refused,
/// and an argument matching nothing is refused with the other error.
pub fn select_output_gamepad(arg: &str) -> (r: Result<Gamepad, SelectError>)
    ensures
        match r {
            Ok(g) => is_dualsense(g) && g.wf() && spec_matches_dualsense(arg.spec_bytes()),
            Err(SelectError::NotSupported) => !spec_matches_dualsense(arg.spec_bytes())
                && spec_matches_dualshock(arg.spec_bytes()),
            Err(SelectError::NoMatch) => !spec_matches_dualsense(arg.spec_bytes())
                && !spec_matches_dualshock(arg.spec_bytes()),
        },
{
    let ds = dualsense();
    if ds.matches_arg(arg) {
        return Ok(ds);
    }
    let dshock = dualshock();
    if dshock.matches_arg(arg) {
        return Err(SelectError::NotSupported);
    }
    Err(SelectError::NoMatch)
}

} // verus!
