use ps2_host::pad::{
    axis_to_byte, gamepad_pressed, key_down, keyboard_pressed, pad_state, unit_to_byte, GamepadSearch,
    GamepadSnapshot, KeyboardSnapshot, PAD_CIRCLE, PAD_CROSS, PAD_DOWN, PAD_L1, PAD_L2, PAD_L3,
    PAD_LEFT, PAD_R1, PAD_R2, PAD_R3, PAD_RIGHT, PAD_SELECT, PAD_SQUARE, PAD_START,
    PAD_TRIANGLE, PAD_UP, STICK_CENTER,
};

fn idle_keys() -> KeyboardSnapshot {
    KeyboardSnapshot {
        up: false,
        down: false,
        left: false,
        right: false,
        w: false,
        a: false,
        s: false,
        d: false,
        x: false,
        space: false,
        c: false,
        escape: false,
        z: false,
        v: false,
        q: false,
        e: false,
        key1: false,
        key3: false,
        enter: false,
        rshift: false,
        lctrl: false,
        rctrl: false,
    }
}

fn idle_gamepad() -> GamepadSnapshot {
    GamepadSnapshot {
        dpad_up: false,
        dpad_down: false,
        dpad_left: false,
        dpad_right: false,
        south: false,
        east: false,
        west: false,
        north: false,
        left_shoulder: false,
        right_shoulder: false,
        back: false,
        start: false,
        left_stick: false,
        right_stick: false,
        left_trigger: 0,
        right_trigger: 0,
        left_x: 0,
        left_y: 0,
        right_x: 0,
        right_y: 0,
    }
}

/// The floating-point mapping the stick bytes are defined by.
fn float_unit_to_byte(unit: f32) -> u8 {
    let clamped = unit.clamp(-1.0, 1.0);
    let mapped = (clamped + 1.0) * 127.5;
    mapped.round().clamp(0.0, 255.0) as u8
}

#[test]
fn axis_to_byte_matches_float_mapping_everywhere() {
    for a in i16::MIN..=i16::MAX {
        let expected = float_unit_to_byte((a as f32) / 32767.0);
        assert_eq!(axis_to_byte(a), expected, "axis {}", a);
    }
}

#[test]
fn unit_to_byte_matches_float_mapping() {
    for u in [-1000, -2, -1, 0, 1, 2, 1000, i32::MIN, i32::MAX] {
        assert_eq!(unit_to_byte(u), float_unit_to_byte(u as f32), "unit {}", u);
    }
}

#[test]
fn axis_extremes_and_center() {
    assert_eq!(axis_to_byte(0), 0x80);
    assert_eq!(axis_to_byte(32767), 255);
    assert_eq!(axis_to_byte(-32767), 0);
    assert_eq!(axis_to_byte(-32768), 0);
    assert_eq!(axis_to_byte(16384), 191);
    assert_eq!(axis_to_byte(-16384), 64);
}

#[test]
fn axis_mirror_except_center() {
    for a in [1i16, 100, 128, 16384, 32767] {
        assert_eq!(axis_to_byte(-a), 255 - axis_to_byte(a));
    }
    assert_eq!(axis_to_byte(0), 128);
}

#[test]
fn idle_pad_reports_nothing_pressed_and_centered_sticks() {
    let s = pad_state(None, idle_keys());
    assert_eq!(s.buttons, 0xFFFF);
    assert_eq!((s.lx, s.ly, s.rx, s.ry), (0x80, 0x80, 0x80, 0x80));
    assert_eq!(s.pressure, [0u8; 12]);

    let s = pad_state(Some(idle_gamepad()), idle_keys());
    assert_eq!(s.buttons, 0xFFFF);
    assert_eq!((s.lx, s.ly, s.rx, s.ry), (0x80, 0x80, 0x80, 0x80));
}

#[test]
fn keyboard_buttons_are_active_low() {
    let mut k = idle_keys();
    k.x = true;
    assert_eq!(pad_state(None, k).buttons, 0xFFFF & !PAD_CROSS);
    let mut k = idle_keys();
    k.enter = true;
    k.rshift = true;
    assert_eq!(pad_state(None, k).buttons, 0xFFFF & !(PAD_START | PAD_SELECT));
}

#[test]
fn every_keyboard_binding() {
    let cases: Vec<(fn(&mut KeyboardSnapshot), u16)> = vec![
        (|k| k.up = true, PAD_UP),
        (|k| k.w = true, PAD_UP),
        (|k| k.down = true, PAD_DOWN),
        (|k| k.s = true, PAD_DOWN),
        (|k| k.left = true, PAD_LEFT),
        (|k| k.a = true, PAD_LEFT),
        (|k| k.right = true, PAD_RIGHT),
        (|k| k.d = true, PAD_RIGHT),
        (|k| k.x = true, PAD_CROSS),
        (|k| k.space = true, PAD_CROSS),
        (|k| k.c = true, PAD_CIRCLE),
        (|k| k.escape = true, PAD_CIRCLE),
        (|k| k.z = true, PAD_SQUARE),
        (|k| k.v = true, PAD_TRIANGLE),
        (|k| k.q = true, PAD_L1),
        (|k| k.e = true, PAD_R1),
        (|k| k.key1 = true, PAD_L2),
        (|k| k.key3 = true, PAD_R2),
        (|k| k.enter = true, PAD_START),
        (|k| k.rshift = true, PAD_SELECT),
        (|k| k.lctrl = true, PAD_L3),
        (|k| k.rctrl = true, PAD_R3),
    ];
    for (set, mask) in cases {
        let mut k = idle_keys();
        set(&mut k);
        assert_eq!(keyboard_pressed(&k), mask);
        assert_eq!(pad_state(None, k).buttons, !mask);
    }
}

#[test]
fn every_gamepad_binding() {
    let cases: Vec<(fn(&mut GamepadSnapshot), u16)> = vec![
        (|g| g.dpad_up = true, PAD_UP),
        (|g| g.dpad_down = true, PAD_DOWN),
        (|g| g.dpad_left = true, PAD_LEFT),
        (|g| g.dpad_right = true, PAD_RIGHT),
        (|g| g.south = true, PAD_CROSS),
        (|g| g.east = true, PAD_CIRCLE),
        (|g| g.west = true, PAD_SQUARE),
        (|g| g.north = true, PAD_TRIANGLE),
        (|g| g.left_shoulder = true, PAD_L1),
        (|g| g.right_shoulder = true, PAD_R1),
        (|g| g.back = true, PAD_SELECT),
        (|g| g.start = true, PAD_START),
        (|g| g.left_stick = true, PAD_L3),
        (|g| g.right_stick = true, PAD_R3),
        (|g| g.left_trigger = 8193, PAD_L2),
        (|g| g.right_trigger = 32767, PAD_R2),
    ];
    for (set, mask) in cases {
        let mut g = idle_gamepad();
        set(&mut g);
        assert_eq!(gamepad_pressed(&g), mask);
        assert_eq!(pad_state(Some(g), idle_keys()).buttons, !mask);
    }
}

#[test]
fn trigger_threshold_is_strict() {
    let mut g = idle_gamepad();
    g.left_trigger = 8192;
    g.right_trigger = 8192;
    assert_eq!(pad_state(Some(g), idle_keys()).buttons, 0xFFFF);
}

#[test]
fn gamepad_and_keyboard_merge() {
    let mut g = idle_gamepad();
    g.south = true;
    let mut k = idle_keys();
    k.x = true;
    k.q = true;
    let s = pad_state(Some(g), k);
    assert_eq!(s.buttons, !(PAD_CROSS | PAD_L1));
}

#[test]
fn wasd_steers_left_stick_without_gamepad() {
    let mut k = idle_keys();
    k.d = true;
    let s = pad_state(None, k);
    assert_eq!((s.lx, s.ly), (255, 0x80));
    let mut k = idle_keys();
    k.a = true;
    k.w = true;
    let s = pad_state(None, k);
    assert_eq!((s.lx, s.ly), (0, 0));
    let mut k = idle_keys();
    k.a = true;
    k.d = true;
    k.s = true;
    let s = pad_state(None, k);
    assert_eq!((s.lx, s.ly), (0x80, 255));
    assert_eq!((s.rx, s.ry), (STICK_CENTER, STICK_CENTER));
}

#[test]
fn wasd_does_not_move_sticks_with_gamepad() {
    let mut g = idle_gamepad();
    g.left_x = 32767;
    g.left_y = -32768;
    g.right_x = -32767;
    g.right_y = 100;
    let mut k = idle_keys();
    k.d = true;
    k.w = true;
    let s = pad_state(Some(g), k);
    assert_eq!((s.lx, s.ly, s.rx, s.ry), (255, 0, 0, axis_to_byte(100)));
    assert_eq!(s.buttons, !(PAD_RIGHT | PAD_UP));
}

#[test]
fn gamepad_search_tries_gamepads_in_order() {
    let mut search = GamepadSearch::new(vec![false, true, false, true]);
    assert_eq!(search.next_attempt(), Some(1));
    assert_eq!(search.next_attempt(), Some(3));
    assert_eq!(search.next_attempt(), None);
    assert_eq!(search.next_attempt(), None);
}

#[test]
fn gamepad_search_without_gamepads() {
    let mut search = GamepadSearch::new(vec![]);
    assert_eq!(search.next_attempt(), None);
    let mut search = GamepadSearch::new(vec![false, false]);
    assert_eq!(search.next_attempt(), None);
}

#[test]
fn key_down_reads_inside_the_state_array() {
    let state = [false, true, false, true];
    assert!(key_down(&state, 1));
    assert!(key_down(&state, 3));
    assert!(!key_down(&state, 0));
    assert!(!key_down(&state, 4));
    assert!(!key_down(&state, -1));
    assert!(!key_down(&[], 0));
}
