//! Decoding raw PS5 input reports and encoding universal states back into
//! output reports.

use gamepad_bridge::hidapi_fn::{process_input, ps5_input_to_universal, GamepadModel};
use gamepad_bridge::universal_gamepad::UniversalGamepad;
use gamepad_bridge::usb_gamepad::{dualsense, dualshock, DecodeError};
use gamepad_bridge::usb_gamepad_ps5::ps5_universal_to_usb;
use gamepad_bridge::HID_ARRAY_SIZE;

/// A raw report of the given length: counters zero, sticks centered,
/// triggers released, dpad nibble released, no buttons.
fn neutral_report(len: usize) -> Vec<u8> {
    let mut v = vec![0u8; len];
    v[2] = 128;
    v[3] = 128;
    v[4] = 128;
    v[5] = 128;
    v[9] = 8;
    v
}

#[test]
fn s1_neutral_report_decodes_neutral() {
    let ds = dualsense();
    let input = neutral_report(12);
    let u = ds.bt_input_to_universal_gamepad(&input).unwrap();
    assert_eq!(u, UniversalGamepad::neutral());
}

#[test]
fn s1_long_neutral_report_decodes_neutral() {
    let ds = dualsense();
    let input = neutral_report(64);
    let u = ds.bt_input_to_universal_gamepad(&input).unwrap();
    assert_eq!(u, UniversalGamepad::neutral());
}

#[test]
fn s2_lower_main_button_only() {
    let ds = dualsense();
    let mut input = neutral_report(12);
    input[9] = 0x28; // released dpad nibble plus the lower-button bit
    let u = ds.bt_input_to_universal_gamepad(&input).unwrap();
    assert!(u.buttons.main.lower);
    assert!(!u.buttons.main.upper);
    assert!(!u.buttons.main.right);
    assert!(!u.buttons.main.left);
    assert!(!u.buttons.dpad.up && !u.buttons.dpad.right && !u.buttons.dpad.down
        && !u.buttons.dpad.left);
    assert_eq!(u.sticks, UniversalGamepad::neutral().sticks);
    assert_eq!(u.triggers, UniversalGamepad::neutral().triggers);
    assert_eq!(u.buttons.bumpers, UniversalGamepad::neutral().buttons.bumpers);
    assert_eq!(u.buttons.specials, UniversalGamepad::neutral().buttons.specials);
}

#[test]
fn s3_dpad_northeast() {
    let ds = dualsense();
    let mut input = neutral_report(12);
    input[9] = 1;
    let u = ds.bt_input_to_universal_gamepad(&input).unwrap();
    assert!(u.buttons.dpad.up);
    assert!(u.buttons.dpad.right);
    assert!(!u.buttons.dpad.down);
    assert!(!u.buttons.dpad.left);
}

#[test]
fn s4_bumper_and_stick_click_together() {
    let ds = dualsense();
    let mut input = neutral_report(12);
    input[10] = 0x41; // left bumper and left stick click at once
    let u = ds.bt_input_to_universal_gamepad(&input).unwrap();
    assert!(u.buttons.bumpers.left);
    assert!(u.sticks.left.pressed);
    assert!(!u.buttons.bumpers.right);
    assert!(!u.sticks.right.pressed);
    assert!(!u.buttons.specials.left);
    assert!(!u.buttons.specials.right);
}

#[test]
fn dpad_nibble_table() {
    let expected = [
        (0u8, (true, false, false, false)),
        (1, (true, true, false, false)),
        (2, (false, true, false, false)),
        (3, (false, true, true, false)),
        (4, (false, false, true, false)),
        (5, (false, false, true, true)),
        (6, (false, false, false, true)),
        (7, (true, false, false, true)),
        (8, (false, false, false, false)),
    ];
    for (nibble, (up, right, down, left)) in expected {
        let mut input = neutral_report(12);
        input[9] = nibble;
        let u = ps5_input_to_universal(&input);
        assert_eq!(u.buttons.dpad.up, up, "nibble {nibble}");
        assert_eq!(u.buttons.dpad.right, right, "nibble {nibble}");
        assert_eq!(u.buttons.dpad.down, down, "nibble {nibble}");
        assert_eq!(u.buttons.dpad.left, left, "nibble {nibble}");
        // P4: opposing directions never read together.
        assert!(!(u.buttons.dpad.up && u.buttons.dpad.down));
        assert!(!(u.buttons.dpad.left && u.buttons.dpad.right));
    }
}

#[test]
fn dpad_exclusive_for_every_nibble() {
    for nibble in 0u8..=15 {
        let mut input = neutral_report(12);
        input[9] = nibble;
        let u = ps5_input_to_universal(&input);
        assert!(!(u.buttons.dpad.up && u.buttons.dpad.down), "nibble {nibble}");
        assert!(!(u.buttons.dpad.left && u.buttons.dpad.right), "nibble {nibble}");
    }
}

#[test]
fn byte10_is_a_bitfield() {
    let cases: [(u8, fn(&UniversalGamepad) -> bool); 6] = [
        (0x01, |u| u.buttons.bumpers.left),
        (0x02, |u| u.buttons.bumpers.right),
        (0x10, |u| u.buttons.specials.left),
        (0x20, |u| u.buttons.specials.right),
        (0x40, |u| u.sticks.left.pressed),
        (0x80, |u| u.sticks.right.pressed),
    ];
    for (mask, read) in cases {
        let mut input = neutral_report(12);
        input[10] = mask;
        let u = ps5_input_to_universal(&input);
        assert!(read(&u), "mask {mask:#x}");
    }
    // All six at once.
    let mut input = neutral_report(12);
    input[10] = 0xf3;
    let u = ps5_input_to_universal(&input);
    for (_, read) in cases {
        assert!(read(&u));
    }
}

#[test]
fn sticks_and_triggers_are_raw_bytes() {
    let mut input = neutral_report(12);
    input[2] = 7;
    input[3] = 200;
    input[4] = 0;
    input[5] = 255;
    input[6] = 33;
    input[7] = 250;
    let u = ps5_input_to_universal(&input);
    assert_eq!(u.sticks.left.x, 7);
    assert_eq!(u.sticks.left.y, 200);
    assert_eq!(u.sticks.right.x, 0);
    assert_eq!(u.sticks.right.y, 255);
    assert_eq!(u.triggers.left, 33);
    assert_eq!(u.triggers.right, 250);
}

#[test]
fn too_short_input_is_refused() {
    let ds = dualsense();
    let input = vec![0u8; 11];
    assert_eq!(ds.bt_input_to_universal_gamepad(&input), Err(DecodeError::InputTooShort));
    let empty: Vec<u8> = Vec::new();
    assert_eq!(ds.bt_input_to_universal_gamepad(&empty), Err(DecodeError::InputTooShort));
}

#[test]
fn process_input_decodes_for_ps5() {
    let mut input = [0u8; HID_ARRAY_SIZE];
    input[2] = 128;
    input[3] = 128;
    input[4] = 128;
    input[5] = 128;
    input[9] = 0x12; // left main button, dpad east
    let mut output = UniversalGamepad::neutral();
    process_input(input, &GamepadModel::PS5, &mut output);
    assert!(output.buttons.main.left);
    assert!(output.buttons.dpad.right);
    assert!(!output.buttons.dpad.up);
}

#[test]
fn process_input_leaves_output_for_ps4() {
    let mut input = [0u8; HID_ARRAY_SIZE];
    input[9] = 0x12;
    let mut output = UniversalGamepad::neutral();
    output.triggers.left = 99;
    let before = output;
    process_input(input, &GamepadModel::PS4, &mut output);
    assert_eq!(output, before);
}

/// A universal state touching every represented field, with a valid dpad.
fn busy_state() -> UniversalGamepad {
    let mut u = UniversalGamepad::neutral();
    u.sticks.left.x = 1;
    u.sticks.left.y = 2;
    u.sticks.right.x = 253;
    u.sticks.right.y = 254;
    u.sticks.left.pressed = true;
    u.triggers.left = 10;
    u.triggers.right = 245;
    u.buttons.bumpers.right = true;
    u.buttons.main.upper = true;
    u.buttons.main.left = true;
    u.buttons.dpad.down = true;
    u.buttons.dpad.left = true;
    u.buttons.specials.logo = true;
    u.buttons.specials.touchpad = true;
    u
}

#[test]
fn p2_encode_length_matches_descriptor() {
    let ds = dualsense();
    let dshock = dualshock();
    for u in [UniversalGamepad::neutral(), busy_state()] {
        assert_eq!(ds.universal_gamepad_to_usb_output(&u).len(), ds.report_length);
        assert_eq!(ds.report_length, 48);
        assert_eq!(dshock.universal_gamepad_to_usb_output(&u).len(), dshock.report_length);
        assert_eq!(dshock.report_length, 64);
    }
}

#[test]
fn p3_neutral_encodes_neutral_bytes() {
    let out = ps5_universal_to_usb(&UniversalGamepad::neutral());
    assert_eq!(out.len(), 48);
    for (i, b) in out.iter().enumerate() {
        match i {
            2 | 3 | 4 | 5 => assert_eq!(*b, 128, "stick byte {i}"),
            9 => assert_eq!(*b, 8, "released dpad nibble"),
            _ => assert_eq!(*b, 0, "byte {i}"),
        }
    }
}

#[test]
fn encode_byte_layout() {
    let u = busy_state();
    let out = ps5_universal_to_usb(&u);
    assert_eq!(out[2], 1);
    assert_eq!(out[3], 2);
    assert_eq!(out[4], 253);
    assert_eq!(out[5], 254);
    assert_eq!(out[6], 10);
    assert_eq!(out[7], 245);
    // upper (0x80) and left (0x10) main buttons, dpad southwest nibble 5.
    assert_eq!(out[9], 0x95);
    // right bumper (0x02) and left stick click (0x40).
    assert_eq!(out[10], 0x42);
    // logo (0x01) and touchpad (0x02).
    assert_eq!(out[11], 0x03);
}

#[test]
fn p5_round_trip_preserves_state() {
    let ds = dualsense();
    for u in [UniversalGamepad::neutral(), busy_state()] {
        let encoded = ds.universal_gamepad_to_usb_output(&u);
        let decoded = ds.bt_input_to_universal_gamepad(&encoded).unwrap();
        assert_eq!(decoded, u);
    }
}

#[test]
fn p5_round_trip_every_single_direction() {
    let ds = dualsense();
    for dir in 0..9 {
        let mut u = UniversalGamepad::neutral();
        u.buttons.dpad.up = dir == 0 || dir == 1 || dir == 7;
        u.buttons.dpad.right = dir == 1 || dir == 2 || dir == 3;
        u.buttons.dpad.down = dir == 3 || dir == 4 || dir == 5;
        u.buttons.dpad.left = dir == 5 || dir == 6 || dir == 7;
        let encoded = ds.universal_gamepad_to_usb_output(&u);
        let decoded = ds.bt_input_to_universal_gamepad(&encoded).unwrap();
        assert_eq!(decoded, u, "direction {dir}");
    }
}

#[test]
fn encode_of_decode_reproduces_semantic_bytes() {
    let mut input = neutral_report(12);
    input[2] = 17;
    input[3] = 230;
    input[4] = 99;
    input[5] = 100;
    input[6] = 255;
    input[7] = 1;
    input[9] = 0xa3; // upper and lower main buttons, dpad southeast
    input[10] = 0xff; // every bit, two of them unrepresented
    input[11] = 0x07; // logo, touchpad, and one unrepresented bit
    let u = ps5_input_to_universal(&input);
    let out = ps5_universal_to_usb(&u);
    for i in 2..=7 {
        assert_eq!(out[i], input[i], "byte {i}");
    }
    assert_eq!(out[9], input[9]);
    assert_eq!(out[10], input[10] & 0xf3);
    assert_eq!(out[11], input[11] & 0x03);
}

#[test]
fn ps4_encoder_emits_reserved_bytes() {
    let dshock = dualshock();
    let out = dshock.universal_gamepad_to_usb_output(&busy_state());
    assert_eq!(out.len(), 64);
    assert!(out.iter().all(|b| *b == 0));
}
