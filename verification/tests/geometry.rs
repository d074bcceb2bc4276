use gtk_shell::cursor::{Cursor, CustomCursor, ImageFormat, cursor_image_params, cursor_name};
use gtk_shell::event::{MOD_BUTTON1_MASK, MouseButton, MouseButtons, mouse_down_event,
    mouse_move_event, mouse_up_event, pointer_leave_event};
use gtk_shell::geom::{DpRect, DpSize, PxRect, Scale, next_size, snap_rect, size_to_px};

#[test]
fn surface_extents_bucket_up() {
    assert_eq!(next_size(500), 512);
    assert_eq!(next_size(400), 512);
    assert_eq!(next_size(0), 0);
    assert_eq!(next_size(1), 32);
    assert_eq!(next_size(128), 128);
    assert_eq!(next_size(129), 192);
    assert_eq!(next_size(1000), 1024);
}

#[test]
fn logical_size_scales_up_to_physical() {
    let scale = Scale::from_reported(1, 1);
    let px = size_to_px(&DpSize::from_whole_dp(500, 400), &scale);
    assert_eq!((px.width, px.height), (500, 400));
    let scale = Scale::from_reported(2, 3);
    let px = size_to_px(&DpSize::from_whole_dp(10, 10), &scale);
    assert_eq!((px.width, px.height), (20, 30));
    // A fractional point rounds its pixel count up.
    let half = DpSize { width: 128, height: 128 };
    let px = size_to_px(&half, &Scale::from_reported(1, 1));
    assert_eq!((px.width, px.height), (1, 1));
}

#[test]
fn rectangles_snap_outward_never_inward() {
    let scale = Scale::from_reported(2, 2);
    // 0.25dp..0.75dp covers half a pixel on each side at scale 2.
    let r = DpRect::new(64, 64, 192, 192);
    let px = snap_rect(&r, &scale);
    assert_eq!(px, PxRect { x0: 0, y0: 0, x1: 2, y1: 2 });
    // Negative coordinates snap away from zero on the low side.
    let r = DpRect::new(-64, -64, 64, 64);
    let px = snap_rect(&r, &scale);
    assert_eq!(px, PxRect { x0: -1, y0: -1, x1: 1, y1: 1 });
}

#[test]
fn scale_reports_are_clamped() {
    let s = Scale::from_reported(0, 70000);
    assert_eq!(s.x, 1);
    assert_eq!(s.y, 0x10000);
}

#[test]
fn single_press_and_release_make_a_button_pair() {
    let down = mouse_down_event(1, 30, 40, 1, 0).expect("button 1 maps");
    assert_eq!(down.button, MouseButton::Left);
    assert_eq!(down.count, 1);
    assert!(down.buttons.left);
    assert!(!down.focus);
    assert_eq!((down.pos.x, down.pos.y), (30, 40));
    // On release the platform still reports the button as held; the event
    // carries the set minus the released button.
    let up = mouse_up_event(30, 40, 1, MOD_BUTTON1_MASK).expect("button 1 maps");
    assert_eq!(up.button, MouseButton::Left);
    assert_eq!(up.count, 0);
    assert_eq!(
        up.buttons,
        MouseButtons { left: false, middle: false, right: false, x1: false, x2: false }
    );
}

#[test]
fn double_presses_and_scroll_buttons_are_ignored() {
    assert!(mouse_down_event(2, 0, 0, 1, 0).is_none());
    assert!(mouse_down_event(1, 0, 0, 4, 0).is_none());
    assert!(mouse_up_event(0, 0, 7, 0).is_none());
    assert!(mouse_down_event(0, 0, 0, 8, 0).is_some());
}

#[test]
fn pointer_leave_reports_a_move_to_the_origin() {
    let ev = pointer_leave_event(MOD_BUTTON1_MASK);
    assert_eq!((ev.pos.x, ev.pos.y), (0, 0));
    assert_eq!(ev.button, MouseButton::NoButton);
    assert!(ev.buttons.left);
    let moved = mouse_move_event(5, 6, 0);
    assert_eq!(moved.count, 0);
    assert_eq!(moved.button, MouseButton::NoButton);
}

#[test]
fn stock_cursors_have_names_and_custom_ones_do_not() {
    assert_eq!(cursor_name(&Cursor::Arrow), Some("default"));
    assert_eq!(cursor_name(&Cursor::IBeam), Some("text"));
    assert_eq!(cursor_name(&Cursor::NotAllowed), Some("not-allowed"));
    assert_eq!(cursor_name(&Cursor::Custom(CustomCursor(3))), None);
}

#[test]
fn cursor_images_derive_alpha_and_stride() {
    assert_eq!(cursor_image_params(ImageFormat::Rgb, 16), (false, 48));
    assert_eq!(cursor_image_params(ImageFormat::RgbaSeparate, 16), (true, 64));
    assert_eq!(cursor_image_params(ImageFormat::Grayscale, 16), (true, 16));
}
