use undici::color::RGB;
use undici::x11::common::{MouseButton, Vector2};
use undici::x11::display::Display;
use undici::x11::errors::{DisplayError, ImageError};
use undici::x11::events::{
    modifier_to_xlib_mod, mouse_button_to_number, pointer_grab_event_mask,
    xevent_to_window_create_data, CreateNotifyFilter, Event, EventType, BUTTON_PRESS,
    BUTTON_RELEASE, KEY_PRESS, KEY_RELEASE, MOTION_NOTIFY, NO_SUBWINDOW,
};
use undici::x11::image::Image;
use undici::x11::window::{Modifier, WindowData};

fn key_event(tag: i32, display: u64, subwindow: u64, key: &str) -> Event {
    Event {
        type_: tag,
        display,
        subwindow,
        key_name: String::from(key),
        button: 0,
        x_root: 0,
        y_root: 0,
    }
}

fn pointer_event(tag: i32, display: u64, subwindow: u64, button: u32, x: i32, y: i32) -> Event {
    Event {
        type_: tag,
        display,
        subwindow,
        key_name: String::new(),
        button,
        x_root: x,
        y_root: y,
    }
}

#[test]
fn vector2_new_sets_components() {
    let v: Vector2<i32> = Vector2::new(3, -4);
    assert_eq!(v.x, 3);
    assert_eq!(v.y, -4);
}

#[test]
fn mouse_button_codes() {
    assert_eq!(MouseButton::Left.as_c_uint(), 1);
    assert_eq!(MouseButton::Middle.as_c_uint(), 2);
    assert_eq!(MouseButton::Right.as_c_uint(), 3);
    assert_eq!(mouse_button_to_number(MouseButton::Left), 1);
    assert_eq!(mouse_button_to_number(MouseButton::Middle), 2);
    assert_eq!(mouse_button_to_number(MouseButton::Right), 3);
}

#[test]
fn modifier_masks_are_protocol_bits() {
    assert_eq!(modifier_to_xlib_mod(Modifier::Shift), 0x01);
    assert_eq!(modifier_to_xlib_mod(Modifier::Lock), 0x02);
    assert_eq!(modifier_to_xlib_mod(Modifier::Control), 0x04);
    assert_eq!(modifier_to_xlib_mod(Modifier::Alt), 0x08);
    assert_eq!(modifier_to_xlib_mod(Modifier::Num), 0x10);
    assert_eq!(modifier_to_xlib_mod(Modifier::Super), 0x40);
    assert_eq!(modifier_to_xlib_mod(Modifier::ScrollLock), 0x80);
}

#[test]
fn pointer_grab_mask_covers_buttons_and_motion() {
    assert_eq!(pointer_grab_event_mask(), 0x4C);
}

#[test]
fn null_native_handle_is_refused() {
    let r = Display::new(0);
    match r {
        Err(DisplayError::CouldNotCreate) => {}
        Ok(_) => panic!("a null handle must not open a connection"),
    }
    assert_eq!(DisplayError::CouldNotCreate.message(), "could not create display");
}

#[test]
fn live_native_handle_is_adopted() {
    let d = Display::new(0x7f00_1000).expect("nonzero handle must open");
    assert_eq!(d.display, 0x7f00_1000);
    let root = d.get_root_window(42);
    assert_eq!(root.id, 42);
    assert_eq!(root.display, 0x7f00_1000);
}

#[test]
fn decode_key_press() {
    let d = key_event(KEY_PRESS, 9, NO_SUBWINDOW, "a").get_data();
    assert!(d.subwindow.is_none());
    match d.type_ {
        EventType::KeyPress(k) => assert_eq!(k.key, "a"),
        _ => panic!("tag 2 must decode to a key press"),
    }
}

#[test]
fn decode_key_release() {
    let d = key_event(KEY_RELEASE, 9, NO_SUBWINDOW, "l").get_data();
    match d.type_ {
        EventType::KeyRelease(k) => assert_eq!(k.key, "l"),
        _ => panic!("tag 3 must decode to a key release"),
    }
}

#[test]
fn decode_button_press_left() {
    let d = pointer_event(BUTTON_PRESS, 9, NO_SUBWINDOW, 1, 10, 20).get_data();
    match d.type_ {
        EventType::MouseButtonPress(m) => {
            assert_eq!(m.button, MouseButton::Left);
            assert_eq!(m.root_position.x, 10);
            assert_eq!(m.root_position.y, 20);
        }
        _ => panic!("tag 4 must decode to a button press"),
    }
}

#[test]
fn decode_button_release_right() {
    let d = pointer_event(BUTTON_RELEASE, 9, NO_SUBWINDOW, 3, -1, 7).get_data();
    match d.type_ {
        EventType::MouseButtonRelease(m) => {
            assert_eq!(m.button, MouseButton::Right);
            assert_eq!(m.root_position.x, -1);
            assert_eq!(m.root_position.y, 7);
        }
        _ => panic!("tag 5 must decode to a button release"),
    }
}

#[test]
fn decode_motion() {
    let d = pointer_event(MOTION_NOTIFY, 9, NO_SUBWINDOW, 0, 100, 200).get_data();
    match d.type_ {
        EventType::MotionNotify(m) => {
            assert_eq!(m.root_position.x, 100);
            assert_eq!(m.root_position.y, 200);
        }
        _ => panic!("tag 6 must decode to a motion event"),
    }
}

#[test]
fn decode_is_total_on_unknown_tags() {
    for tag in [-5, 0, 1, 7, 16, 33, 255, i32::MAX, i32::MIN] {
        let d = key_event(tag, 9, NO_SUBWINDOW, "").get_data();
        assert!(matches!(d.type_, EventType::Unimplemented));
    }
}

#[test]
fn decode_wraps_subwindow_of_same_connection() {
    let d = pointer_event(BUTTON_PRESS, 77, 501, 2, 0, 0).get_data();
    let w = d.subwindow.expect("a nonzero subwindow field must be wrapped");
    assert_eq!(w.id, 501);
    assert_eq!(w.display, 77);
    match d.type_ {
        EventType::MouseButtonPress(m) => assert_eq!(m.button, MouseButton::Middle),
        _ => panic!("tag 4 must decode to a button press"),
    }
}

#[test]
fn pixel_reads_are_checked_and_repeatable() {
    // 2 x 2 grid, row-major.
    let words: Vec<u64> = vec![0x00AABBCC, 0x00112233, 0x00000000, 0x00FFFFFF];
    let img = Image::new(words, 2, 2);

    let p = img.get_pixel(0, 0).expect("in-bounds read must succeed");
    assert_eq!((p.r, p.g, p.b), (0xAA, 0xBB, 0xCC));
    let p2 = img.get_pixel(0, 0).expect("in-bounds read must succeed");
    assert_eq!(p, p2);

    let q = img.get_pixel(1, 0).expect("in-bounds read must succeed");
    assert_eq!((q.r, q.g, q.b), (0x11, 0x22, 0x33));
    let r = img.get_pixel(1, 1).expect("in-bounds read must succeed");
    assert_eq!((r.r, r.g, r.b), (0xFF, 0xFF, 0xFF));
}

#[test]
fn out_of_bounds_pixel_reads_fail() {
    let words: Vec<u64> = vec![0; 4];
    let img = Image::new(words, 2, 2);
    assert_eq!(img.get_pixel(2, 0), Err(ImageError::OutOfBounds));
    assert_eq!(img.get_pixel(0, 2), Err(ImageError::OutOfBounds));
    assert_eq!(img.get_pixel(-1, 0), Err(ImageError::OutOfBounds));
    assert_eq!(img.get_pixel(0, -1), Err(ImageError::OutOfBounds));
    assert_eq!(img.get_pixel(i32::MAX, i32::MAX), Err(ImageError::OutOfBounds));
}

#[test]
fn channel_extremes_for_conversion() {
    // Black: the maximum channel is zero, so the conversion yields value 0,
    // saturation 0, and the degenerate hue 0.
    let black = RGB { r: 0, g: 0, b: 0 };
    assert_eq!(black.max_channel(), 0);
    assert_eq!(black.min_channel(), 0);
    assert!(black.is_achromatic());

    // White: full value, and min == max, so saturation 0.
    let white = RGB { r: 255, g: 255, b: 255 };
    assert_eq!(white.max_channel(), 255);
    assert_eq!(white.min_channel(), 255);
    assert!(white.is_achromatic());

    let mixed = RGB { r: 12, g: 200, b: 56 };
    assert_eq!(mixed.max_channel(), 200);
    assert_eq!(mixed.min_channel(), 12);
    assert!(!mixed.is_achromatic());
}

#[test]
fn window_data_from_attributes() {
    let d = WindowData::from_attributes(5, -3, 800, 600);
    assert_eq!(d.position, Vector2 { x: 5, y: -3 });
    assert_eq!(d.scale, Vector2 { x: 800, y: 600 });
}

#[test]
fn unnamed_creation_notification_is_spurious() {
    assert!(xevent_to_window_create_data(9, 100, 1, None).is_none());
    let d = xevent_to_window_create_data(9, 100, 1, Some(String::from("xterm")))
        .expect("a named creation notification is canonical");
    assert_eq!(d.window.id, 100);
    assert_eq!(d.window.display, 9);
    assert_eq!(d.parent_window.id, 1);
    assert_eq!(d.parent_window.display, 9);
}

#[test]
fn creation_notifications_dedup_to_one_canonical_event() {
    let mut filter = CreateNotifyFilter::new();
    // The protocol fires several notifications for one logical window; the
    // first with a resolvable name is the canonical one.
    assert!(filter.observe(9, 100, 1, None).is_none());
    assert!(filter.observe(9, 100, 1, None).is_none());
    let canonical = filter
        .observe(9, 100, 1, Some(String::from("xterm")))
        .expect("first named occurrence is canonical");
    assert_eq!(canonical.window.id, 100);
    assert!(filter.observe(9, 100, 1, Some(String::from("xterm"))).is_none());
    assert!(filter.observe(9, 100, 1, None).is_none());
    // A different window is announced independently.
    let other = filter
        .observe(9, 101, 1, Some(String::from("xclock")))
        .expect("a new window gets its own canonical event");
    assert_eq!(other.window.id, 101);
}

#[test]
fn synthetic_session_decodes_grabbed_return_key() {
    // A session against a nested test endpoint of size 800 x 800: adopt the
    // connection, take the root window, register Return + Alt, then decode
    // an injected matching key press that happened outside any child window.
    let display = Display::new(0x55AA).expect("the test endpoint is reachable");
    let root = display.get_root_window(1);
    let geometry = WindowData::from_attributes(0, 0, 800, 800);
    assert_eq!(geometry.scale, Vector2 { x: 800, y: 800 });

    // The grab registration the edge would hand to the native layer.
    let grabbed_key = "Return";
    let grab_mask = modifier_to_xlib_mod(Modifier::Alt);
    assert_eq!(grab_mask, 0x08);

    let injected = key_event(KEY_PRESS, root.display, NO_SUBWINDOW, grabbed_key);
    let decoded = injected.get_data();
    assert!(decoded.subwindow.is_none());
    match decoded.type_ {
        EventType::KeyPress(k) => assert_eq!(k.key, "Return"),
        _ => panic!("the injected press must decode as a key press"),
    }
}
