//! Input side of the bridge: classifying connected HID devices and decoding
//! a model's raw input report into a [`UniversalGamepad`].
//!
//! Device enumeration and opening are operating-system work and stay outside
//! the library; callers hand over one plain [`HidDeviceInfo`] record per
//! connected device and get back which device to open and as which model.

use vstd::prelude::*;

use crate::universal_gamepad::{
    dpad_ok, Bumpers, Buttons, DPad, MainButtons, SpecialButtons, Stick, Sticks, Triggers,
    UniversalGamepad,
};

verus! {

/// Why no input gamepad could be produced.
#[derive(Clone, Copy, Debug, PartialEq, Eq, Structural)]
pub enum HidApiGamepadError {
    /// No HID device is connected over Bluetooth.
    NoBTDevice,
    /// Bluetooth devices exist, but none has a known vendor/product pair.
    NoSupportedDevice,
    /// A supported device was found but the OS refused to open it.
    OpenFailed,
}

/// The gamepad models the bridge can read input from.
#[derive(Clone, Copy, Debug, PartialEq, Eq, Structural)]
pub enum GamepadModel {
    PS5,
    PS4,
}

/// What the bridge needs to know of one connected HID device.
#[derive(Clone, Copy, Debug, PartialEq, Eq, Structural)]
pub struct HidDeviceInfo {
    pub vendor_id: u16,
    pub product_id: u16,
    /// Whether the device's transport is Bluetooth.
    pub is_bluetooth: bool,
}

/// The model a vendor/product pair is known as, if any.
pub open spec fn spec_supported_model(vendor_id: u16, product_id: u16) -> Option<GamepadModel> {
    if vendor_id == 0x054c && product_id == 0x0ce6 {
        Some(GamepadModel::PS5)
    } else {
        None
    }
}

/// Looks a vendor/product pair up in the table of known gamepads.
pub fn supported_model(vendor_id: u16, product_id: u16) -> (r: Option<GamepadModel>)
    ensures
        r == spec_supported_model(vendor_id, product_id),
{
    if vendor_id == 0x054c && product_id == 0x0ce6 {
        Some(GamepadModel::PS5)
    } else {
        None
    }
}

/// Picks the device the bridge should open: the first Bluetooth device whose
/// vendor/product pair names a supported model.
///
/// Returns `NoBTDevice` when no device at all is on Bluetooth, and
/// `NoSupportedDevice` when Bluetooth devices exist but none is known.
/// `OpenFailed` is never produced here; it is for the caller that actually
/// opens the chosen device.
pub fn select_supported_device(devices: &Vec<HidDeviceInfo>) -> (r: Result<
    (usize, GamepadModel),
    HidApiGamepadError,
>)
    ensures
        match r {
            Ok((i, m)) => {
                &&& i < devices@.len()
                &&& devices@[i as int].is_bluetooth
                &&& spec_supported_model(
                    devices@[i as int].vendor_id,
                    devices@[i as int].product_id,
                ) == Some(m)
                &&& forall|j: int|
                    0 <= j < i ==> !(#[trigger] devices@[j].is_bluetooth
                        && spec_supported_model(
                            devices@[j].vendor_id,
                            devices@[j].product_id,
                        ) is Some)
            },
            Err(e) => match e {
                HidApiGamepadError::NoBTDevice => forall|j: int|
                    0 <= j < devices@.len() ==> !(#[trigger] devices@[j].is_bluetooth),
                HidApiGamepadError::NoSupportedDevice => {
                    &&& exists|j: int|
                        0 <= j < devices@.len() && (#[trigger] devices@[j].is_bluetooth)
                    &&& forall|j: int|
                        0 <= j < devices@.len() ==> !(#[trigger] devices@[j].is_bluetooth
                            && spec_supported_model(
                                devices@[j].vendor_id,
                                devices@[j].product_id,
                            ) is Some)
                },
                HidApiGamepadError::OpenFailed => false,
            },
        },
{
    let mut saw_bluetooth: bool = false;
    let mut i: usize = 0;
    while i < devices.len()
        invariant
            i <= devices@.len(),
            saw_bluetooth == exists|j: int|
                0 <= j < i && (#[trigger] devices@[j].is_bluetooth),
            forall|j: int|
                0 <= j < i ==> !(#[trigger] devices@[j].is_bluetooth
                    && spec_supported_model(
                        devices@[j].vendor_id,
                        devices@[j].product_id,
                    ) is Some),
        decreases devices@.len() - i,
    {
        let d = devices[i];
        if d.is_bluetooth {
            saw_bluetooth = true;
            if let Some(m) = supported_model(d.vendor_id, d.product_id) {
                return Ok((i, m));
            }
        }
        i += 1;
    }
    if saw_bluetooth {
        Err(HidApiGamepadError::NoSupportedDevice)
    } else {
        Err(HidApiGamepadError::NoBTDevice)
    }
}

/// A raw input report must reach this length before the PS5 decoder touches
/// it: the highest byte it reads sits at index 11.
pub const PS5_MIN_INPUT_LEN: usize = 12;

/// Expands the HID direction nibble into the four directional booleans:
/// `0` is north, the odd values are the diagonals, `8` is released.
pub open spec fn spec_dpad_from_nibble(n: u8) -> DPad {
    DPad {
        up: n == 0 || n == 1 || n == 7,
        right: n == 1 || n == 2 || n == 3,
        down: n == 3 || n == 4 || n == 5,
        left: n == 5 || n == 6 || n == 7,
    }
}

/// What the PS5 decoder makes of a raw Bluetooth input report.
///
/// Only bytes 2 through 11 carry gamepad state; bytes 9, 10 and 11 are
/// bitfields, so any combination of buttons reads correctly.
pub open spec fn spec_decode_ps5(b: Seq<u8>) -> UniversalGamepad {
    UniversalGamepad {
        sticks: Sticks {
            left: Stick { x: b[2], y: b[3], pressed: b[10] & 0x40 != 0 },
            right: Stick { x: b[4], y: b[5], pressed: b[10] & 0x80 != 0 },
        },
        triggers: Triggers { left: b[6], right: b[7] },
        buttons: Buttons {
            bumpers: Bumpers { left: b[10] & 0x01 != 0, right: b[10] & 0x02 != 0 },
            main: MainButtons {
                upper: b[9] & 0x80 != 0,
                right: b[9] & 0x40 != 0,
                lower: b[9] & 0x20 != 0,
                left: b[9] & 0x10 != 0,
            },
            dpad: spec_dpad_from_nibble(b[9] & 0x0f),
            specials: SpecialButtons {
                left: b[10] & 0x10 != 0,
                right: b[10] & 0x20 != 0,
                logo: b[11] & 0x01 != 0,
                touchpad: b[11] & 0x02 != 0,
            },
        },
    }
}

/// A direction nibble never expands to opposing directions: its four
/// membership sets pair up disjointly.
pub proof fn lemma_dpad_exclusive(b: Seq<u8>)
    ensures
        dpad_ok(spec_decode_ps5(b).buttons.dpad),
{
}

/// The PS5 decoder reads nothing past the first [`PS5_MIN_INPUT_LEN`] bytes:
/// two reports that agree on that prefix decode to the same value.
pub proof fn lemma_decode_reads_prefix_only(b1: Seq<u8>, b2: Seq<u8>)
    requires
        forall|i: int| 0 <= i < PS5_MIN_INPUT_LEN ==> b1[i] == b2[i],
    ensures
        spec_decode_ps5(b1) == spec_decode_ps5(b2),
{
    assert(b1[2] == b2[2]);
    assert(b1[3] == b2[3]);
    assert(b1[4] == b2[4]);
    assert(b1[5] == b2[5]);
    assert(b1[6] == b2[6]);
    assert(b1[7] == b2[7]);
    assert(b1[9] == b2[9]);
    assert(b1[10] == b2[10]);
    assert(b1[11] == b2[11]);
}

/// Decodes a raw PS5 Bluetooth input report.
pub fn ps5_input_to_universal(input: &[u8]) -> (u: UniversalGamepad)
    requires
        input@.len() >= PS5_MIN_INPUT_LEN,
    ensures
        u == spec_decode_ps5(input@),
        dpad_ok(u.buttons.dpad),
{
    let byte9: u8 = input[9];
    let byte10: u8 = input[10];
    let byte11: u8 = input[11];
    let nibble: u8 = byte9 & 0x0f;
    UniversalGamepad {
        sticks: Sticks {
            left: Stick { x: input[2], y: input[3], pressed: byte10 & 0x40 != 0 },
            right: Stick { x: input[4], y: input[5], pressed: byte10 & 0x80 != 0 },
        },
        triggers: Triggers { left: input[6], right: input[7] },
        buttons: Buttons {
            bumpers: Bumpers { left: byte10 & 0x01 != 0, right: byte10 & 0x02 != 0 },
            main: MainButtons {
                upper: byte9 & 0x80 != 0,
                right: byte9 & 0x40 != 0,
                lower: byte9 & 0x20 != 0,
                left: byte9 & 0x10 != 0,
            },
            dpad: DPad {
                up: nibble == 0 || nibble == 1 || nibble == 7,
                right: nibble == 1 || nibble == 2 || nibble == 3,
                down: nibble == 3 || nibble == 4 || nibble == 5,
                left: nibble == 5 || nibble == 6 || nibble == 7,
            },
            specials: SpecialButtons {
                left: byte10 & 0x10 != 0,
                right: byte10 & 0x20 != 0,
                logo: byte11 & 0x01 != 0,
                touchpad: byte11 & 0x02 != 0,
            },
        },
    }
}

/// Decodes one fixed-size report from the HID reader into `output`.
///
/// The PS5 model overwrites `output` with the decoded state; for the PS4
/// model no decoder exists yet and `output` is left as it was.
pub fn process_input(
    input: [u8; crate::HID_ARRAY_SIZE],
    model: &GamepadModel,
    output: &mut UniversalGamepad,
)
    ensures
        model is PS5 ==> *final(output) == spec_decode_ps5(input@),
        model is PS4 ==> *final(output) == *old(output),
{
    match model {
        GamepadModel::PS5 => {
            *output = ps5_input_to_universal(input.as_slice());
        },
        GamepadModel::PS4 => {},
    }
}

} // verus!
