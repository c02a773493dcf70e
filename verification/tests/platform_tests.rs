use talan::init;
use talan::platform::{
    FontScaling, FontSource, GlyphRange, InputEvent, MouseBtn, PlatformBridge, font_scaling,
    font_sources, round_scale,
};

#[test]
fn font_sources_are_layered_and_dpi_adjusted() {
    let v = font_sources(2);
    assert_eq!(
        v,
        vec![
            FontSource::Embedded {
                pixel_size: 26,
                rasterizer_multiply_hundredths: 175,
                range: GlyphRange::Japanese,
            },
            FontSource::Fallback { pixel_size: 26 },
        ]
    );
}

#[test]
fn init_strips_title_and_scales_fonts() {
    let sys = init(&b"/path/to/App"[..], 200);
    assert_eq!(sys.title, b"App".to_vec());
    assert_eq!(sys.bridge.scale_factor, 2);
    assert_eq!(sys.font, FontScaling { pixel_size: 26, global_scale_divisor: 2 });
}

#[test]
fn dpi_change_updates_factor_and_font_size() {
    let mut sys = init(&b"App"[..], 100);
    assert_eq!(sys.font, FontScaling { pixel_size: 13, global_scale_divisor: 1 });
    sys.handle_event(&InputEvent::DpiChanged { scale_hundredths: 200 });
    assert_eq!(sys.bridge.scale_factor, 2);
    assert_eq!(sys.font, FontScaling { pixel_size: 26, global_scale_divisor: 2 });
    sys.handle_event(&InputEvent::DpiChanged { scale_hundredths: 300 });
    assert_eq!(sys.font, FontScaling { pixel_size: 39, global_scale_divisor: 3 });
}

#[test]
fn dpi_factor_rounds_to_nearest_whole() {
    assert_eq!(round_scale(100), 1);
    assert_eq!(round_scale(149), 1);
    assert_eq!(round_scale(150), 2);
    assert_eq!(round_scale(249), 2);
    assert_eq!(round_scale(250), 3);
    assert_eq!(round_scale(50), 1);
}

#[test]
fn out_of_range_dpi_report_is_ignored() {
    let mut sys = init(&b"App"[..], 100);
    sys.handle_event(&InputEvent::DpiChanged { scale_hundredths: 10 });
    assert_eq!(sys.bridge.scale_factor, 1);
    assert_eq!(sys.font, FontScaling { pixel_size: 13, global_scale_divisor: 1 });
}

#[test]
fn font_scaling_is_deterministic_in_the_factor() {
    let f = font_scaling(2);
    assert_eq!(f.pixel_size, 26);
    assert_eq!(f.global_scale_divisor, 2);
    assert_eq!(font_scaling(2), f);
}

#[test]
fn events_translate_to_input_state() {
    let mut b = PlatformBridge::attach(100);
    assert!(b.attached);

    b.handle_event(&InputEvent::CursorMoved { x: 10, y: -3 });
    assert_eq!((b.cursor_x, b.cursor_y), (10, -3));

    b.handle_event(&InputEvent::MouseButton { button: MouseBtn::Left, down: true });
    assert!(b.mouse_left && !b.mouse_right && !b.mouse_middle);
    b.handle_event(&InputEvent::MouseButton { button: MouseBtn::Left, down: false });
    assert!(!b.mouse_left);

    b.handle_event(&InputEvent::Scroll { delta: -2 });
    assert_eq!(b.scroll, -2);

    b.handle_event(&InputEvent::Key { code: 65, down: true });
    assert!(b.keys[65]);
    b.handle_event(&InputEvent::Key { code: 65, down: false });
    assert!(!b.keys[65]);

    b.handle_event(&InputEvent::Text { ch: 'q' });
    b.handle_event(&InputEvent::Text { ch: 'x' });
    assert_eq!(b.text, vec!['q', 'x']);

    // an unrecognized event changes nothing
    let cursor = (b.cursor_x, b.cursor_y);
    b.handle_event(&InputEvent::Other);
    assert_eq!((b.cursor_x, b.cursor_y), cursor);
}
