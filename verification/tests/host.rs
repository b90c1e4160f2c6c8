use ps2_host::host::{c_flag, pad_connected, window_size, window_title};

#[test]
fn title_defaults() {
    assert_eq!(window_title(None), "PS2 Game");
    assert_eq!(window_title(Some("Okage".to_string())), "Okage");
}

#[test]
fn window_at_least_one_pixel() {
    assert_eq!(window_size(0, 0), (1, 1));
    assert_eq!(window_size(1280, 0), (1280, 1));
    assert_eq!(window_size(640, 480), (640, 480));
}

#[test]
fn only_first_pad_connected() {
    assert!(pad_connected(0, 0));
    assert!(!pad_connected(1, 0));
    assert!(!pad_connected(0, 1));
    assert!(!pad_connected(-1, 0));
}

#[test]
fn flags() {
    assert_eq!(c_flag(true), 1);
    assert_eq!(c_flag(false), 0);
}
