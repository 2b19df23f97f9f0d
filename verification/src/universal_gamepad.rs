//! The neutral intermediate representation of a gamepad's state.
//!
//! Every supported input model decodes into a [`UniversalGamepad`], and every
//! output model encodes from one.  The type is a plain value: stick and
//! trigger axes are raw `u8` samples, everything else is a boolean.

use vstd::prelude::*;

verus! {

/// One analog stick: two axes (`128` is centered) and its click button.
#[derive(Clone, Copy, Debug, PartialEq, Eq, Structural)]
pub struct Stick {
    pub x: u8,
    pub y: u8,
    pub pressed: bool,
}

/// The pair of analog sticks.
#[derive(Clone, Copy, Debug, PartialEq, Eq, Structural)]
pub struct Sticks {
    pub left: Stick,
    pub right: Stick,
}

/// The two analog triggers: `0` released, `255` fully pressed.
#[derive(Clone, Copy, Debug, PartialEq, Eq, Structural)]
pub struct Triggers {
    pub left: u8,
    pub right: u8,
}

/// The two shoulder bumpers.
#[derive(Clone, Copy, Debug, PartialEq, Eq, Structural)]
pub struct Bumpers {
    pub left: bool,
    pub right: bool,
}

/// The four main face buttons, named by their position on the pad rather
/// than by any vendor's lettering.
#[derive(Clone, Copy, Debug, PartialEq, Eq, Structural)]
pub struct MainButtons {
    pub upper: bool,
    pub right: bool,
    pub lower: bool,
    pub left: bool,
}

/// The directional pad, exploded into four booleans; a diagonal is two
/// adjacent booleans true at once.
#[derive(Clone, Copy, Debug, PartialEq, Eq, Structural)]
pub struct DPad {
    pub up: bool,
    pub right: bool,
    pub down: bool,
    pub left: bool,
}

/// The auxiliary buttons: share/options style pair, vendor logo, and the
/// touchpad click.
#[derive(Clone, Copy, Debug, PartialEq, Eq, Structural)]
pub struct SpecialButtons {
    pub left: bool,
    pub right: bool,
    pub logo: bool,
    pub touchpad: bool,
}

/// All digital buttons of the pad, grouped.
#[derive(Clone, Copy, Debug, PartialEq, Eq, Structural)]
pub struct Buttons {
    pub bumpers: Bumpers,
    pub main: MainButtons,
    pub dpad: DPad,
    pub specials: SpecialButtons,
}

/// The hub value of the bridge: one complete neutral gamepad state.
#[derive(Clone, Copy, Debug, PartialEq, Eq, Structural)]
pub struct UniversalGamepad {
    pub sticks: Sticks,
    pub triggers: Triggers,
    pub buttons: Buttons,
}

/// A directional pad never reports opposing directions together: at most two
/// adjacent booleans are true.
pub open spec fn dpad_ok(d: DPad) -> bool {
    !(d.up && d.down) && !(d.left && d.right)
}

/// The neutral state: sticks centered at `128`, triggers released, every
/// button up.
pub open spec fn spec_neutral() -> UniversalGamepad {
    UniversalGamepad {
        sticks: Sticks {
            left: Stick { x: 128, y: 128, pressed: false },
            right: Stick { x: 128, y: 128, pressed: false },
        },
        triggers: Triggers { left: 0, right: 0 },
        buttons: Buttons {
            bumpers: Bumpers { left: false, right: false },
            main: MainButtons { upper: false, right: false, lower: false, left: false },
            dpad: DPad { up: false, right: false, down: false, left: false },
            specials: SpecialButtons { left: false, right: false, logo: false, touchpad: false },
        },
    }
}

impl UniversalGamepad {
    /// Builds the neutral state.
    pub fn neutral() -> (u: UniversalGamepad)
        ensures
            u == spec_neutral(),
    {
        UniversalGamepad {
            sticks: Sticks {
                left: Stick { x: 128, y: 128, pressed: false },
                right: Stick { x: 128, y: 128, pressed: false },
            },
            triggers: Triggers { left: 0, right: 0 },
            buttons: Buttons {
                bumpers: Bumpers { left: false, right: false },
                main: MainButtons { upper: false, right: false, lower: false, left: false },
                dpad: DPad { up: false, right: false, down: false, left: false },
                specials: SpecialButtons {
                    left: false,
                    right: false,
                    logo: false,
                    touchpad: false,
                },
            },
        }
    }
}

} // verus!
