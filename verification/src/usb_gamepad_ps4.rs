//! Output side for the PS4 model.
//!
//! The byte layout of this model's output report has not been settled, so
//! the descriptor is flagged unsupported and the selector refuses it.  The
//! encoder still exists so that every descriptor honors its advertised
//! report length: it emits a report of reserved bytes, all zero, and
//! represents no field of the universal state.

use vstd::prelude::*;

use crate::universal_gamepad::UniversalGamepad;

verus! {

/// Length of the PS4 output report.
pub const PS4_REPORT_LEN: usize = 64;

/// Input reports shorter than this are refused before any decoding.
pub const PS4_MIN_INPUT_LEN: usize = 12;

/// The PS4 report: every byte reserved, written as zero.
pub open spec fn spec_encode_ps4(u: UniversalGamepad) -> Seq<u8> {
    Seq::new(PS4_REPORT_LEN as nat, |i: int| 0u8)
}

/// Encodes a universal state as the PS4 output report; the result always
/// has exactly [`PS4_REPORT_LEN`] bytes, all zero.
pub fn ps4_universal_to_usb(gamepad: &UniversalGamepad) -> (out: Vec<u8>)
    ensures
        out@ == spec_encode_ps4(*gamepad),
        out@.len() == PS4_REPORT_LEN,
{
    let mut out: Vec<u8> = Vec::new();
    let mut i: usize = 0;
    while i < PS4_REPORT_LEN
        invariant
            i == out@.len(),
            i <= PS4_REPORT_LEN,
            forall|k: int| 0 <= k < i ==> out@[k] == 0u8,
        decreases PS4_REPORT_LEN - i,
    {
        out.push(0);
        i += 1;
    }
    proof {
        assert(out@ =~= spec_encode_ps4(*gamepad));
    }
    out
}

} // verus!
