use talan::set_talan_style;
use talan::style::{Rgba, clear_color, talan_style};

#[test]
fn render_clear_color_is_opaque_white() {
    assert_eq!(clear_color(), Rgba { r: 100, g: 100, b: 100, a: 100 });
}

#[test]
fn style_applied_twice_is_identical() {
    let mut once = talan_style();
    once.text = Rgba { r: 7, g: 8, b: 9, a: 10 };
    once.frame_border_size = 44;
    set_talan_style(&mut once);

    let mut twice = talan_style();
    twice.window_rounding = 3;
    set_talan_style(&mut twice);
    set_talan_style(&mut twice);

    assert_eq!(once, twice);
}

#[test]
fn style_overwrites_prior_state() {
    let mut t = talan_style();
    t.button = Rgba { r: 1, g: 2, b: 3, a: 4 };
    t.child_rounding = 9;
    set_talan_style(&mut t);
    assert_eq!(t, talan_style());
}

#[test]
fn style_values_match_light_theme() {
    let t = talan_style();
    assert_eq!(t.child_rounding, 0);
    assert_eq!(t.popup_rounding, 0);
    assert_eq!(t.frame_rounding, 0);
    assert_eq!(t.window_rounding, 0);
    assert_eq!(t.frame_border_size, 1);
    assert_eq!(t.text, Rgba { r: 0, g: 0, b: 0, a: 100 });
    assert_eq!(t.button, Rgba { r: 26, g: 59, b: 98, a: 40 });
    assert_eq!(t.scrollbar_grab, Rgba { r: 69, g: 69, b: 69, a: 80 });
    // the navigation highlight mirrors the hovered header color
    assert_eq!(t.nav_highlight, t.header_hovered);
}
