use cruise_control::overlay::{
    engagement_or_off, frame_in_range, indicator_color, indicator_frame, indicator_label,
    keeps_running, overlay_ex_style, rgb, window_response, Indicator, Rect, WindowResponse,
    BOX_HEIGHT, BOX_WIDTH, COLOR_KEY, FRAME_WIDTH, HTTRANSPARENT, PADDING, WM_CREATE, WM_DESTROY,
    WM_ERASEBKGND, WM_NCHITTEST, WM_PAINT, WM_QUIT, WS_EX_LAYERED, WS_EX_TOOLWINDOW,
    WS_EX_TOPMOST, WS_EX_TRANSPARENT,
};

#[test]
fn rgb_packs_red_lowest() {
    assert_eq!(rgb(0, 0, 0), 0);
    assert_eq!(rgb(255, 0, 0), 0x0000_00FF);
    assert_eq!(rgb(0, 255, 0), 0x0000_FF00);
    assert_eq!(rgb(0, 0, 255), 0x00FF_0000);
    assert_eq!(rgb(0x12, 0x34, 0x56), 0x0056_3412);
    assert_eq!(rgb(255, 255, 255), 0x00FF_FFFF);
}

#[test]
fn rgb_is_the_sum_of_the_shifted_channels() {
    for r in [0u8, 1, 127, 128, 255] {
        for g in [0u8, 1, 127, 128, 255] {
            for b in [0u8, 1, 127, 128, 255] {
                assert_eq!(rgb(r, g, b), r as u32 + 256 * g as u32 + 65536 * b as u32);
            }
        }
    }
}

#[test]
fn indicator_is_green_on_and_red_off() {
    assert_eq!(indicator_color(true), rgb(0, 255, 0));
    assert_eq!(indicator_color(false), rgb(255, 0, 0));
    assert_eq!(indicator_label(true), "On");
    assert_eq!(indicator_label(false), "Off");
}

#[test]
fn indicator_colors_are_not_the_transparent_color() {
    assert_eq!(COLOR_KEY, rgb(0, 0, 0));
    assert_ne!(indicator_color(true), COLOR_KEY);
    assert_ne!(indicator_color(false), COLOR_KEY);
}

#[test]
fn frame_sits_in_the_upper_right_corner() {
    let client = Rect { left: 0, top: 0, right: 1920, bottom: 1080 };
    assert!(frame_in_range(&client));
    let frame = indicator_frame(&client);
    assert_eq!(frame, Rect { left: 1848, top: 8, right: 1912, bottom: 32 });
    assert_eq!(frame.right - frame.left, BOX_WIDTH);
    assert_eq!(frame.bottom - frame.top, BOX_HEIGHT);
    assert_eq!(client.right - frame.right, PADDING);
    assert_eq!(frame.top - client.top, PADDING);
}

#[test]
fn frame_follows_the_client_area() {
    let client = Rect { left: 100, top: 50, right: 900, bottom: 650 };
    assert_eq!(indicator_frame(&client), Rect { left: 828, top: 58, right: 892, bottom: 82 });
}

#[test]
fn frame_of_an_empty_client_area() {
    let client = Rect { left: 0, top: 0, right: 0, bottom: 0 };
    assert!(frame_in_range(&client));
    assert_eq!(indicator_frame(&client), Rect { left: -72, top: 8, right: -8, bottom: 32 });
}

#[test]
fn frame_at_the_limits_of_the_coordinates() {
    let lowest = Rect { left: 0, top: i32::MAX - 32, right: i32::MIN + 72, bottom: 0 };
    assert!(frame_in_range(&lowest));
    assert_eq!(
        indicator_frame(&lowest),
        Rect { left: i32::MIN, top: i32::MAX - 24, right: i32::MIN + 64, bottom: i32::MAX }
    );
    let too_far_left = Rect { left: 0, top: 0, right: i32::MIN + 71, bottom: 0 };
    assert!(!frame_in_range(&too_far_left));
    let too_far_down = Rect { left: 0, top: i32::MAX - 31, right: 0, bottom: 0 };
    assert!(!frame_in_range(&too_far_down));
}

#[test]
fn layout_constants() {
    assert_eq!(PADDING, 8);
    assert_eq!(BOX_WIDTH, 64);
    assert_eq!(BOX_HEIGHT, 24);
    assert_eq!(FRAME_WIDTH, 2);
}

#[test]
fn window_style_is_click_through_and_topmost() {
    let style = overlay_ex_style();
    assert_eq!(style, 0x0008_00A8);
    assert_eq!(style, WS_EX_LAYERED | WS_EX_TRANSPARENT | WS_EX_TOPMOST | WS_EX_TOOLWINDOW);
    assert_ne!(style & WS_EX_TRANSPARENT, 0);
    assert_ne!(style & WS_EX_TOPMOST, 0);
    assert_ne!(style & WS_EX_LAYERED, 0);
    assert_ne!(style & WS_EX_TOOLWINDOW, 0);
}

#[test]
fn each_handled_message_has_its_response() {
    assert_eq!(window_response(WM_NCHITTEST), WindowResponse::PassClickThrough);
    assert_eq!(window_response(WM_CREATE), WindowResponse::InstallColorKey);
    assert_eq!(window_response(WM_ERASEBKGND), WindowResponse::SkipErase);
    assert_eq!(window_response(WM_PAINT), WindowResponse::Paint);
    assert_eq!(window_response(WM_DESTROY), WindowResponse::PostQuit);
}

#[test]
fn message_codes() {
    assert_eq!(WM_CREATE, 1);
    assert_eq!(WM_DESTROY, 2);
    assert_eq!(WM_PAINT, 15);
    assert_eq!(WM_QUIT, 18);
    assert_eq!(WM_ERASEBKGND, 20);
    assert_eq!(WM_NCHITTEST, 132);
    assert_eq!(HTTRANSPARENT, -1);
}

#[test]
fn every_other_message_is_left_to_the_default() {
    let handled = [WM_NCHITTEST, WM_CREATE, WM_ERASEBKGND, WM_PAINT, WM_DESTROY];
    for message in 0..0x0400u32 {
        if !handled.contains(&message) {
            assert_eq!(window_response(message), WindowResponse::Default);
        }
    }
    assert_eq!(window_response(WM_QUIT), WindowResponse::Default);
    assert_eq!(window_response(u32::MAX), WindowResponse::Default);
}

#[test]
fn results_of_the_responses() {
    assert_eq!(WindowResponse::PassClickThrough.result(), Some(-1));
    assert_eq!(WindowResponse::InstallColorKey.result(), Some(0));
    assert_eq!(WindowResponse::SkipErase.result(), Some(1));
    assert_eq!(WindowResponse::Paint.result(), Some(0));
    assert_eq!(WindowResponse::PostQuit.result(), Some(0));
    assert_eq!(WindowResponse::Default.result(), None);
}

#[test]
fn loop_stops_at_quit_only() {
    assert!(!keeps_running(WM_QUIT));
    for message in 0..0x0400u32 {
        assert_eq!(keeps_running(message), message != WM_QUIT);
    }
}

#[test]
fn indicator_repaints_on_change_only() {
    let mut indicator = Indicator::new(false);
    assert!(!indicator.shown());
    assert!(!indicator.observe(false));
    assert!(indicator.observe(true));
    assert!(indicator.shown());
    assert!(!indicator.observe(true));
    assert!(!indicator.observe(true));
    assert!(indicator.observe(false));
    assert!(!indicator.shown());
    assert!(!indicator.observe(false));
}

#[test]
fn indicator_starts_with_what_it_is_given() {
    let mut indicator = Indicator::new(true);
    assert!(indicator.shown());
    assert!(!indicator.observe(true));
    assert!(indicator.observe(false));
}

#[test]
fn missing_flag_shows_off() {
    assert!(!engagement_or_off(None));
    assert!(!engagement_or_off(Some(false)));
    assert!(engagement_or_off(Some(true)));
}
