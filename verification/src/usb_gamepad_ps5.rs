//! Output side for the PS5 model: encoding a [`UniversalGamepad`] as the
//! fixed-length USB HID report the gadget endpoint expects.
//!
//! The layout is the exact inverse of the PS5 input decoder: sticks in bytes
//! 2 through 5, triggers in 6 and 7, face buttons and the direction nibble in
//! byte 9, bumpers, stick clicks and the special pair in byte 10, logo and
//! touchpad click in byte 11.  Counter and reserved bytes are written as
//! zero.

use vstd::prelude::*;

use crate::hidapi_fn::{spec_decode_ps5, spec_dpad_from_nibble};
use crate::universal_gamepad::{dpad_ok, spec_neutral, DPad, UniversalGamepad};

verus! {

/// Length of the PS5 output report written to the gadget endpoint.
pub const PS5_REPORT_LEN: usize = 48;

/// Folds the four directional booleans back into the HID direction nibble.
/// On a state with opposing directions the dominant single direction wins;
/// such states never leave a decoder (see [`dpad_ok`]).
pub open spec fn spec_nibble_of_dpad(d: DPad) -> u8 {
    if d.up && d.right {
        1
    } else if d.down && d.right {
        3
    } else if d.down && d.left {
        5
    } else if d.up && d.left {
        7
    } else if d.up {
        0
    } else if d.right {
        2
    } else if d.down {
        4
    } else if d.left {
        6
    } else {
        8
    }
}

/// Byte 9 of the PS5 report: the four face buttons in the high bits, the
/// direction nibble in the low bits.
pub open spec fn spec_ps5_byte9(u: UniversalGamepad) -> u8 {
    (if u.buttons.main.upper { 0x80u8 } else { 0u8 })
        | (if u.buttons.main.right { 0x40u8 } else { 0u8 })
        | (if u.buttons.main.lower { 0x20u8 } else { 0u8 })
        | (if u.buttons.main.left { 0x10u8 } else { 0u8 })
        | spec_nibble_of_dpad(u.buttons.dpad)
}

/// Byte 10 of the PS5 report: bumpers, special pair and stick clicks, one
/// bit each.
pub open spec fn spec_ps5_byte10(u: UniversalGamepad) -> u8 {
    (if u.buttons.bumpers.left { 0x01u8 } else { 0u8 })
        | (if u.buttons.bumpers.right { 0x02u8 } else { 0u8 })
        | (if u.buttons.specials.left { 0x10u8 } else { 0u8 })
        | (if u.buttons.specials.right { 0x20u8 } else { 0u8 })
        | (if u.sticks.left.pressed { 0x40u8 } else { 0u8 })
        | (if u.sticks.right.pressed { 0x80u8 } else { 0u8 })
}

/// Byte 11 of the PS5 report: the logo button and the touchpad click.
pub open spec fn spec_ps5_byte11(u: UniversalGamepad) -> u8 {
    (if u.buttons.specials.logo { 0x01u8 } else { 0u8 })
        | (if u.buttons.specials.touchpad { 0x02u8 } else { 0u8 })
}

/// The byte at index `i` of the encoded PS5 report.
pub open spec fn spec_encode_ps5_byte(u: UniversalGamepad, i: int) -> u8 {
    if i == 2 {
        u.sticks.left.x
    } else if i == 3 {
        u.sticks.left.y
    } else if i == 4 {
        u.sticks.right.x
    } else if i == 5 {
        u.sticks.right.y
    } else if i == 6 {
        u.triggers.left
    } else if i == 7 {
        u.triggers.right
    } else if i == 9 {
        spec_ps5_byte9(u)
    } else if i == 10 {
        spec_ps5_byte10(u)
    } else if i == 11 {
        spec_ps5_byte11(u)
    } else {
        0
    }
}

/// The complete encoded PS5 report.
pub open spec fn spec_encode_ps5(u: UniversalGamepad) -> Seq<u8> {
    Seq::new(PS5_REPORT_LEN as nat, |i: int| spec_encode_ps5_byte(u, i))
}

/// Folds the directional booleans into the HID nibble.
pub fn nibble_of_dpad(d: &DPad) -> (n: u8)
    ensures
        n == spec_nibble_of_dpad(*d),
{
    if d.up && d.right {
        1
    } else if d.down && d.right {
        3
    } else if d.down && d.left {
        5
    } else if d.up && d.left {
        7
    } else if d.up {
        0
    } else if d.right {
        2
    } else if d.down {
        4
    } else if d.left {
        6
    } else {
        8
    }
}

/// The byte at index `i` of the encoded PS5 report.
fn ps5_byte_at(gamepad: &UniversalGamepad, i: usize) -> (b: u8)
    ensures
        b == spec_encode_ps5_byte(*gamepad, i as int),
{
    if i == 2 {
        gamepad.sticks.left.x
    } else if i == 3 {
        gamepad.sticks.left.y
    } else if i == 4 {
        gamepad.sticks.right.x
    } else if i == 5 {
        gamepad.sticks.right.y
    } else if i == 6 {
        gamepad.triggers.left
    } else if i == 7 {
        gamepad.triggers.right
    } else if i == 9 {
        (if gamepad.buttons.main.upper { 0x80u8 } else { 0u8 })
            | (if gamepad.buttons.main.right { 0x40u8 } else { 0u8 })
            | (if gamepad.buttons.main.lower { 0x20u8 } else { 0u8 })
            | (if gamepad.buttons.main.left { 0x10u8 } else { 0u8 })
            | nibble_of_dpad(&gamepad.buttons.dpad)
    } else if i == 10 {
        (if gamepad.buttons.bumpers.left { 0x01u8 } else { 0u8 })
            | (if gamepad.buttons.bumpers.right { 0x02u8 } else { 0u8 })
            | (if gamepad.buttons.specials.left { 0x10u8 } else { 0u8 })
            | (if gamepad.buttons.specials.right { 0x20u8 } else { 0u8 })
            | (if gamepad.sticks.left.pressed { 0x40u8 } else { 0u8 })
            | (if gamepad.sticks.right.pressed { 0x80u8 } else { 0u8 })
    } else if i == 11 {
        (if gamepad.buttons.specials.logo { 0x01u8 } else { 0u8 })
            | (if gamepad.buttons.specials.touchpad { 0x02u8 } else { 0u8 })
    } else {
        0
    }
}

/// Encodes a universal state as the PS5 USB output report; the result always
/// has exactly [`PS5_REPORT_LEN`] bytes.
pub fn ps5_universal_to_usb(gamepad: &UniversalGamepad) -> (out: Vec<u8>)
    ensures
        out@ == spec_encode_ps5(*gamepad),
        out@.len() == PS5_REPORT_LEN,
{
    let mut out: Vec<u8> = Vec::new();
    let mut i: usize = 0;
    while i < PS5_REPORT_LEN
        invariant
            i == out@.len(),
            i <= PS5_REPORT_LEN,
            forall|k: int| 0 <= k < i ==> out@[k] == spec_encode_ps5_byte(*gamepad, k),
        decreases PS5_REPORT_LEN - i,
    {
        let b = ps5_byte_at(gamepad, i);
        out.push(b);
        i += 1;
    }
    proof {
        assert(out@ =~= spec_encode_ps5(*gamepad));
    }
    out
}

/// Each component of byte 9 occupies its own bits: every face-button test
/// and the nibble extraction read back exactly what was folded in.
proof fn lemma_byte9_bits(a: u8, b: u8, c: u8, d: u8, n: u8)
    by (bit_vector)
    requires
        a == 0 || a == 0x80,
        b == 0 || b == 0x40,
        c == 0 || c == 0x20,
        d == 0 || d == 0x10,
        n <= 8,
    ensures
        ((a | b | c | d | n) & 0x80 != 0) == (a == 0x80),
        ((a | b | c | d | n) & 0x40 != 0) == (b == 0x40),
        ((a | b | c | d | n) & 0x20 != 0) == (c == 0x20),
        ((a | b | c | d | n) & 0x10 != 0) == (d == 0x10),
        ((a | b | c | d | n) & 0x0f) == n,
{
}

/// Each component of byte 10 occupies its own bit.
proof fn lemma_byte10_bits(a: u8, b: u8, c: u8, d: u8, e: u8, f: u8)
    by (bit_vector)
    requires
        a == 0 || a == 0x01,
        b == 0 || b == 0x02,
        c == 0 || c == 0x10,
        d == 0 || d == 0x20,
        e == 0 || e == 0x40,
        f == 0 || f == 0x80,
    ensures
        ((a | b | c | d | e | f) & 0x01 != 0) == (a == 0x01),
        ((a | b | c | d | e | f) & 0x02 != 0) == (b == 0x02),
        ((a | b | c | d | e | f) & 0x10 != 0) == (c == 0x10),
        ((a | b | c | d | e | f) & 0x20 != 0) == (d == 0x20),
        ((a | b | c | d | e | f) & 0x40 != 0) == (e == 0x40),
        ((a | b | c | d | e | f) & 0x80 != 0) == (f == 0x80),
{
}

/// Each component of byte 11 occupies its own bit.
proof fn lemma_byte11_bits(a: u8, b: u8)
    by (bit_vector)
    requires
        a == 0 || a == 0x01,
        b == 0 || b == 0x02,
    ensures
        ((a | b) & 0x01 != 0) == (a == 0x01),
        ((a | b) & 0x02 != 0) == (b == 0x02),
{
}

/// A valid direction state survives the trip through the HID nibble.
proof fn lemma_nibble_round_trip(d: DPad)
    requires
        dpad_ok(d),
    ensures
        spec_dpad_from_nibble(spec_nibble_of_dpad(d)) == d,
{
}

/// Decoding an encoded report gives the encoded state back: the PS5 encoder
/// and decoder agree on every field the model represents.  States with
/// opposing directions pressed together are excluded; no decoder produces
/// them.
#[verifier::rlimit(50)]
pub proof fn lemma_ps5_round_trip(u: UniversalGamepad)
    requires
        dpad_ok(u.buttons.dpad),
    ensures
        spec_decode_ps5(spec_encode_ps5(u)) == u,
{
    let e = spec_encode_ps5(u);
    assert(e[2] == u.sticks.left.x);
    assert(e[3] == u.sticks.left.y);
    assert(e[4] == u.sticks.right.x);
    assert(e[5] == u.sticks.right.y);
    assert(e[6] == u.triggers.left);
    assert(e[7] == u.triggers.right);
    assert(e[9] == spec_ps5_byte9(u));
    assert(e[10] == spec_ps5_byte10(u));
    assert(e[11] == spec_ps5_byte11(u));
    let nib = spec_nibble_of_dpad(u.buttons.dpad);
    assert(nib <= 8);
    lemma_byte9_bits(
        if u.buttons.main.upper { 0x80u8 } else { 0u8 },
        if u.buttons.main.right { 0x40u8 } else { 0u8 },
        if u.buttons.main.lower { 0x20u8 } else { 0u8 },
        if u.buttons.main.left { 0x10u8 } else { 0u8 },
        nib,
    );
    lemma_byte10_bits(
        if u.buttons.bumpers.left { 0x01u8 } else { 0u8 },
        if u.buttons.bumpers.right { 0x02u8 } else { 0u8 },
        if u.buttons.specials.left { 0x10u8 } else { 0u8 },
        if u.buttons.specials.right { 0x20u8 } else { 0u8 },
        if u.sticks.left.pressed { 0x40u8 } else { 0u8 },
        if u.sticks.right.pressed { 0x80u8 } else { 0u8 },
    );
    lemma_byte11_bits(
        if u.buttons.specials.logo { 0x01u8 } else { 0u8 },
        if u.buttons.specials.touchpad { 0x02u8 } else { 0u8 },
    );
    assert(e[9] & 0x0f == nib);
    lemma_nibble_round_trip(u.buttons.dpad);
}

/// A released or held direction nibble survives the trip through the four
/// directional booleans.
proof fn lemma_nibble_inverse(n: u8)
    requires
        n <= 8,
    ensures
        spec_nibble_of_dpad(spec_dpad_from_nibble(n)) == n,
{
}

/// Re-encoding a decoded report reproduces it on every semantic byte:
/// sticks, triggers and byte 9 exactly, bytes 10 and 11 up to their
/// represented bits.  Reports whose direction nibble is out of range are
/// excluded; a gamepad never sends one.
pub proof fn lemma_ps5_encode_of_decode(b: Seq<u8>)
    requires
        b.len() >= crate::hidapi_fn::PS5_MIN_INPUT_LEN,
        b[9] & 0x0f <= 8,
    ensures
        spec_encode_ps5(spec_decode_ps5(b))[2] == b[2],
        spec_encode_ps5(spec_decode_ps5(b))[3] == b[3],
        spec_encode_ps5(spec_decode_ps5(b))[4] == b[4],
        spec_encode_ps5(spec_decode_ps5(b))[5] == b[5],
        spec_encode_ps5(spec_decode_ps5(b))[6] == b[6],
        spec_encode_ps5(spec_decode_ps5(b))[7] == b[7],
        spec_encode_ps5(spec_decode_ps5(b))[9] == b[9],
        spec_encode_ps5(spec_decode_ps5(b))[10] == b[10] & 0xf3,
        spec_encode_ps5(spec_decode_ps5(b))[11] == b[11] & 0x03,
{
    let u = spec_decode_ps5(b);
    let e = spec_encode_ps5(u);
    lemma_nibble_inverse(b[9] & 0x0f);
    let x9 = b[9];
    assert(((if (x9 & 0x80u8) != 0 { 0x80u8 } else { 0u8 }) | (if (x9 & 0x40u8) != 0 {
        0x40u8
    } else {
        0u8
    }) | (if (x9 & 0x20u8) != 0 { 0x20u8 } else { 0u8 }) | (if (x9 & 0x10u8) != 0 {
        0x10u8
    } else {
        0u8
    }) | (x9 & 0x0fu8)) == x9) by (bit_vector);
    assert(e[9] == b[9]);
    let x10 = b[10];
    assert(((if (x10 & 0x01u8) != 0 { 0x01u8 } else { 0u8 }) | (if (x10 & 0x02u8) != 0 {
        0x02u8
    } else {
        0u8
    }) | (if (x10 & 0x10u8) != 0 { 0x10u8 } else { 0u8 }) | (if (x10 & 0x20u8) != 0 {
        0x20u8
    } else {
        0u8
    }) | (if (x10 & 0x40u8) != 0 { 0x40u8 } else { 0u8 }) | (if (x10 & 0x80u8) != 0 {
        0x80u8
    } else {
        0u8
    })) == (x10 & 0xf3u8)) by (bit_vector);
    assert(e[10] == (b[10] & 0xf3));
    let x11 = b[11];
    assert(((if (x11 & 0x01u8) != 0 { 0x01u8 } else { 0u8 }) | (if (x11 & 0x02u8) != 0 {
        0x02u8
    } else {
        0u8
    })) == (x11 & 0x03u8)) by (bit_vector);
    assert(e[11] == (b[11] & 0x03));
}

/// The neutral state encodes to a neutral report: stick bytes centered at
/// `128`, triggers zero, the direction nibble released and every button bit
/// clear.
pub proof fn lemma_ps5_neutral_encode()
    ensures
        spec_encode_ps5(spec_neutral())[2] == 128,
        spec_encode_ps5(spec_neutral())[3] == 128,
        spec_encode_ps5(spec_neutral())[4] == 128,
        spec_encode_ps5(spec_neutral())[5] == 128,
        spec_encode_ps5(spec_neutral())[9] == 8,
        forall|i: int|
            0 <= i < PS5_REPORT_LEN && !(2 <= i <= 5) && i != 9 ==> spec_encode_ps5(
                spec_neutral(),
            )[i] == 0,
{
    assert((0u8 | 0u8 | 0u8 | 0u8 | 8u8) == 8u8) by (bit_vector);
    assert((0u8 | 0u8 | 0u8 | 0u8 | 0u8 | 0u8) == 0u8) by (bit_vector);
    assert((0u8 | 0u8) == 0u8) by (bit_vector);
}

} // verus!
