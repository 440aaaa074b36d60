use screencapturekit::cg_display::{CGDisplay, DisplayMode};
use screencapturekit::error::SCError;
use screencapturekit::ffi::{FFIApplicationData, FFIDisplayData, FFIRect, FFIWindowData};
use screencapturekit::handle::NativeHandle;
use screencapturekit::text::{contains_nul, decode_c_buffer, find_nul};

#[test]
fn a_display_keeps_its_id() {
    assert_eq!(CGDisplay::new(10).id(), 10);
    assert_eq!(CGDisplay::new(u32::MAX).id(), u32::MAX);
    assert_eq!(CGDisplay::new(3), CGDisplay::new(3));
    assert_ne!(CGDisplay::new(3), CGDisplay::new(4));
}

#[test]
fn a_mode_keeps_its_values() {
    let mode = DisplayMode::new(1440, 900, 2880, 1800, 60.0f64.to_bits());
    assert_eq!(mode.logical_width(), 1440);
    assert_eq!(mode.logical_height(), 900);
    assert_eq!(mode.pixel_width(), 2880);
    assert_eq!(mode.pixel_height(), 1800);
    assert_eq!(f64::from_bits(mode.refresh_rate_bits()), 60.0);
    let none = DisplayMode::default();
    assert_eq!(none, DisplayMode::new(0, 0, 0, 0, 0));
    assert_eq!(f64::from_bits(none.refresh_rate_bits()), 0.0);
}

#[test]
fn active_displays_follow_the_native_answer() {
    assert_eq!(CGDisplay::active_displays(true, Some(vec![1, 2, 3])), Ok(vec![1, 2, 3]));
    assert_eq!(CGDisplay::active_displays(true, None), Ok(Vec::new()));
    assert_eq!(
        CGDisplay::active_displays(false, Some(vec![1])),
        Err(SCError::InternalError("Failed to get active display list".to_string()))
    );
}

#[test]
fn display_mode_follows_the_native_answer() {
    let display = CGDisplay::new(1);
    let mode = DisplayMode::new(1, 2, 3, 4, 5);
    assert_eq!(display.display_mode(true, mode), Some(mode));
    assert_eq!(display.display_mode(false, mode), None);
}

#[test]
fn create_image_wraps_what_the_native_layer_made() {
    let display = CGDisplay::new(1);
    assert!(display.create_image(NativeHandle::null(), 0, 0).is_none());
    let image = display.create_image(NativeHandle::new(0x10), 30, 20).unwrap();
    assert_eq!((image.as_ptr().addr, image.width(), image.height()), (0x10, 30, 20));
    assert!(display.create_image_in_rect(NativeHandle::null(), 0, 0).is_none());
    let part = display.create_image_in_rect(NativeHandle::new(0x11), 3, 2).unwrap();
    assert_eq!((part.as_ptr().addr, part.width(), part.height()), (0x11, 3, 2));
}

#[test]
fn application_data_is_plain() {
    let app = FFIApplicationData {
        process_id: 77,
        _padding: 0,
        bundle_id_offset: 0,
        bundle_id_length: 9,
        app_name_offset: 9,
        app_name_length: 4,
    };
    let copy = app;
    assert_eq!(app, copy);
    assert_eq!(copy.process_id, 77);

    let frame = FFIRect {
        x: 0.0f64.to_bits(),
        y: 0.0f64.to_bits(),
        width: 1920.0f64.to_bits(),
        height: 1080.0f64.to_bits(),
    };
    let display = FFIDisplayData { display_id: 10, width: 1920, height: 1080, frame };
    assert_eq!(f64::from_bits(display.frame.width), 1920.0);
    let window = FFIWindowData {
        window_id: 4,
        window_layer: 0,
        is_on_screen: true,
        is_active: false,
        frame: FFIRect::default(),
        title_offset: 0,
        title_length: 5,
        owning_app_index: -1,
        _padding: 0,
    };
    assert_eq!(window.frame, FFIRect { x: 0, y: 0, width: 0, height: 0 });
    assert_eq!(f64::from_bits(window.frame.height), 0.0);
}

#[test]
fn the_first_nul_ends_the_text() {
    assert_eq!(find_nul(b"ab\0cd\0"), Some(2));
    assert_eq!(find_nul(b"\0"), Some(0));
    assert_eq!(find_nul(b"abc"), None);
    assert_eq!(find_nul(b""), None);
    assert!(contains_nul("a\0b"));
    assert!(!contains_nul("ab"));
    assert!(!contains_nul(""));
}

#[test]
fn c_buffers_decode_as_utf8() {
    assert_eq!(decode_c_buffer(b"hello\0world\0"), Some("hello".to_string()));
    assert_eq!(decode_c_buffer("gr\u{fc}n\0".as_bytes()), Some("gr\u{fc}n".to_string()));
    assert_eq!(decode_c_buffer(b"\0"), Some(String::new()));
    assert_eq!(decode_c_buffer(b"hello"), None);
    assert_eq!(decode_c_buffer(&[0x80, 0]), None);
    assert_eq!(decode_c_buffer(&[0xe2, 0x82, 0]), None);
}
