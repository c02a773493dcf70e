//! Style configuration: the visual theme applied once at startup.
//!
//! Color channels are held in hundredths of an intensity unit, so the theme
//! is exact, comparable data; the rendering edge divides by one hundred when
//! it hands the values to the UI context.

use vstd::prelude::*;

verus! {

/// One theme color; each channel is in hundredths of an intensity unit
/// (so `100` stands for full intensity).
#[derive(Clone, Copy, Debug, PartialEq, Eq, Structural)]
pub struct Rgba {
    pub r: u16,
    pub g: u16,
    pub b: u16,
    pub a: u16,
}

/// The complete visual theme: one color per semantic role, plus the
/// corner-rounding and border-width scalars, in logical units.
#[derive(Clone, Copy, Debug, PartialEq, Eq, Structural)]
pub struct StyleTheme {
    pub child_rounding: u32,
    pub popup_rounding: u32,
    pub frame_rounding: u32,
    pub window_rounding: u32,
    pub frame_border_size: u32,
    pub text: Rgba,
    pub text_disabled: Rgba,
    pub window_bg: Rgba,
    pub child_bg: Rgba,
    pub popup_bg: Rgba,
    pub border: Rgba,
    pub border_shadow: Rgba,
    pub frame_bg: Rgba,
    pub frame_bg_hovered: Rgba,
    pub frame_bg_active: Rgba,
    pub title_bg: Rgba,
    pub title_bg_active: Rgba,
    pub title_bg_collapsed: Rgba,
    pub menu_bar_bg: Rgba,
    pub scrollbar_bg: Rgba,
    pub scrollbar_grab: Rgba,
    pub scrollbar_grab_hovered: Rgba,
    pub scrollbar_grab_active: Rgba,
    pub check_mark: Rgba,
    pub slider_grab: Rgba,
    pub slider_grab_active: Rgba,
    pub button: Rgba,
    pub button_hovered: Rgba,
    pub button_active: Rgba,
    pub header: Rgba,
    pub header_hovered: Rgba,
    pub header_active: Rgba,
    pub separator: Rgba,
    pub separator_hovered: Rgba,
    pub separator_active: Rgba,
    pub resize_grip: Rgba,
    pub resize_grip_hovered: Rgba,
    pub resize_grip_active: Rgba,
    pub plot_lines: Rgba,
    pub plot_lines_hovered: Rgba,
    pub plot_histogram: Rgba,
    pub plot_histogram_hovered: Rgba,
    pub text_selected_bg: Rgba,
    pub drag_drop_target: Rgba,
    pub nav_highlight: Rgba,
    pub nav_windowing_highlight: Rgba,
    pub nav_windowing_dim_bg: Rgba,
    pub modal_window_dim_bg: Rgba,
}

/// The theme that the configuration step writes: a light palette with every
/// rounding set to zero and a one-unit frame border.
pub open spec fn talan_theme() -> StyleTheme {
    StyleTheme {
        child_rounding: 0,
        popup_rounding: 0,
        frame_rounding: 0,
        window_rounding: 0,
        frame_border_size: 1,
        text: (Rgba { r: 0, g: 0, b: 0, a: 100 }),
        text_disabled: (Rgba { r: 160, g: 160, b: 60, a: 100 }),
        window_bg: (Rgba { r: 94, g: 94, b: 94, a: 100 }),
        child_bg: (Rgba { r: 0, g: 0, b: 0, a: 0 }),
        popup_bg: (Rgba { r: 100, g: 100, b: 100, a: 98 }),
        border: (Rgba { r: 0, g: 0, b: 0, a: 30 }),
        border_shadow: (Rgba { r: 0, g: 0, b: 0, a: 0 }),
        frame_bg: (Rgba { r: 100, g: 100, b: 100, a: 100 }),
        frame_bg_hovered: (Rgba { r: 26, g: 59, b: 98, a: 40 }),
        frame_bg_active: (Rgba { r: 26, g: 59, b: 98, a: 67 }),
        title_bg: (Rgba { r: 96, g: 96, b: 96, a: 100 }),
        title_bg_active: (Rgba { r: 82, g: 82, b: 82, a: 100 }),
        title_bg_collapsed: (Rgba { r: 100, g: 100, b: 100, a: 51 }),
        menu_bar_bg: (Rgba { r: 86, g: 86, b: 86, a: 100 }),
        scrollbar_bg: (Rgba { r: 98, g: 98, b: 98, a: 53 }),
        scrollbar_grab: (Rgba { r: 69, g: 69, b: 69, a: 80 }),
        scrollbar_grab_hovered: (Rgba { r: 49, g: 49, b: 49, a: 80 }),
        scrollbar_grab_active: (Rgba { r: 49, g: 49, b: 49, a: 100 }),
        check_mark: (Rgba { r: 26, g: 59, b: 98, a: 100 }),
        slider_grab: (Rgba { r: 26, g: 59, b: 98, a: 78 }),
        slider_grab_active: (Rgba { r: 46, g: 54, b: 80, a: 60 }),
        button: (Rgba { r: 26, g: 59, b: 98, a: 40 }),
        button_hovered: (Rgba { r: 26, g: 59, b: 98, a: 100 }),
        button_active: (Rgba { r: 6, g: 53, b: 98, a: 100 }),
        header: (Rgba { r: 26, g: 59, b: 98, a: 31 }),
        header_hovered: (Rgba { r: 26, g: 59, b: 98, a: 80 }),
        header_active: (Rgba { r: 26, g: 59, b: 98, a: 100 }),
        separator: (Rgba { r: 39, g: 39, b: 39, a: 100 }),
        separator_hovered: (Rgba { r: 14, g: 44, b: 80, a: 78 }),
        separator_active: (Rgba { r: 14, g: 44, b: 80, a: 100 }),
        resize_grip: (Rgba { r: 80, g: 80, b: 80, a: 56 }),
        resize_grip_hovered: (Rgba { r: 26, g: 59, b: 98, a: 67 }),
        resize_grip_active: (Rgba { r: 26, g: 59, b: 98, a: 95 }),
        plot_lines: (Rgba { r: 39, g: 39, b: 39, a: 100 }),
        plot_lines_hovered: (Rgba { r: 100, g: 43, b: 35, a: 100 }),
        plot_histogram: (Rgba { r: 90, g: 70, b: 0, a: 100 }),
        plot_histogram_hovered: (Rgba { r: 100, g: 45, b: 0, a: 100 }),
        text_selected_bg: (Rgba { r: 26, g: 59, b: 98, a: 35 }),
        drag_drop_target: (Rgba { r: 26, g: 59, b: 98, a: 95 }),
        nav_highlight: (Rgba { r: 26, g: 59, b: 98, a: 80 }),
        nav_windowing_highlight: (Rgba { r: 70, g: 70, b: 70, a: 70 }),
        nav_windowing_dim_bg: (Rgba { r: 20, g: 20, b: 20, a: 20 }),
        modal_window_dim_bg: (Rgba { r: 20, g: 20, b: 20, a: 35 }),
    }
}

/// What the configuration step leaves in a theme, whatever stood there
/// before: the whole prior state is overwritten.
pub open spec fn apply_style(t: StyleTheme) -> StyleTheme {
    talan_theme()
}

/// Writes every recognized role's color and the rounding/border scalars,
/// overwriting the prior theme state completely.
pub fn set_talan_style(style: &mut StyleTheme)
    ensures
        *final(style) == apply_style(*old(style)),
        *final(style) == talan_theme(),
{
    *style = talan_style();
}

/// Builds the configured theme value.
pub fn talan_style() -> (t: StyleTheme)
    ensures
        t == talan_theme(),
{
    StyleTheme {
        child_rounding: 0,
        popup_rounding: 0,
        frame_rounding: 0,
        window_rounding: 0,
        frame_border_size: 1,
        text: Rgba { r: 0, g: 0, b: 0, a: 100 },
        text_disabled: Rgba { r: 160, g: 160, b: 60, a: 100 },
        window_bg: Rgba { r: 94, g: 94, b: 94, a: 100 },
        child_bg: Rgba { r: 0, g: 0, b: 0, a: 0 },
        popup_bg: Rgba { r: 100, g: 100, b: 100, a: 98 },
        border: Rgba { r: 0, g: 0, b: 0, a: 30 },
        border_shadow: Rgba { r: 0, g: 0, b: 0, a: 0 },
        frame_bg: Rgba { r: 100, g: 100, b: 100, a: 100 },
        frame_bg_hovered: Rgba { r: 26, g: 59, b: 98, a: 40 },
        frame_bg_active: Rgba { r: 26, g: 59, b: 98, a: 67 },
        title_bg: Rgba { r: 96, g: 96, b: 96, a: 100 },
        title_bg_active: Rgba { r: 82, g: 82, b: 82, a: 100 },
        title_bg_collapsed: Rgba { r: 100, g: 100, b: 100, a: 51 },
        menu_bar_bg: Rgba { r: 86, g: 86, b: 86, a: 100 },
        scrollbar_bg: Rgba { r: 98, g: 98, b: 98, a: 53 },
        scrollbar_grab: Rgba { r: 69, g: 69, b: 69, a: 80 },
        scrollbar_grab_hovered: Rgba { r: 49, g: 49, b: 49, a: 80 },
        scrollbar_grab_active: Rgba { r: 49, g: 49, b: 49, a: 100 },
        check_mark: Rgba { r: 26, g: 59, b: 98, a: 100 },
        slider_grab: Rgba { r: 26, g: 59, b: 98, a: 78 },
        slider_grab_active: Rgba { r: 46, g: 54, b: 80, a: 60 },
        button: Rgba { r: 26, g: 59, b: 98, a: 40 },
        button_hovered: Rgba { r: 26, g: 59, b: 98, a: 100 },
        button_active: Rgba { r: 6, g: 53, b: 98, a: 100 },
        header: Rgba { r: 26, g: 59, b: 98, a: 31 },
        header_hovered: Rgba { r: 26, g: 59, b: 98, a: 80 },
        header_active: Rgba { r: 26, g: 59, b: 98, a: 100 },
        separator: Rgba { r: 39, g: 39, b: 39, a: 100 },
        separator_hovered: Rgba { r: 14, g: 44, b: 80, a: 78 },
        separator_active: Rgba { r: 14, g: 44, b: 80, a: 100 },
        resize_grip: Rgba { r: 80, g: 80, b: 80, a: 56 },
        resize_grip_hovered: Rgba { r: 26, g: 59, b: 98, a: 67 },
        resize_grip_active: Rgba { r: 26, g: 59, b: 98, a: 95 },
        plot_lines: Rgba { r: 39, g: 39, b: 39, a: 100 },
        plot_lines_hovered: Rgba { r: 100, g: 43, b: 35, a: 100 },
        plot_histogram: Rgba { r: 90, g: 70, b: 0, a: 100 },
        plot_histogram_hovered: Rgba { r: 100, g: 45, b: 0, a: 100 },
        text_selected_bg: Rgba { r: 26, g: 59, b: 98, a: 35 },
        drag_drop_target: Rgba { r: 26, g: 59, b: 98, a: 95 },
        nav_highlight: Rgba { r: 26, g: 59, b: 98, a: 80 },
        nav_windowing_highlight: Rgba { r: 70, g: 70, b: 70, a: 70 },
        nav_windowing_dim_bg: Rgba { r: 20, g: 20, b: 20, a: 20 },
        modal_window_dim_bg: Rgba { r: 20, g: 20, b: 20, a: 35 },
    }
}

/// The background color every frame's render target is cleared to before
/// draw data is submitted: full-opacity white, matching the light theme.
pub fn clear_color() -> (c: Rgba)
    ensures
        c == (Rgba { r: 100, g: 100, b: 100, a: 100 }),
{
    Rgba { r: 100, g: 100, b: 100, a: 100 }
}

/// Applying the style configuration twice leaves exactly the state that
/// applying it once leaves: the step is idempotent.
pub proof fn lemma_style_idempotent(t: StyleTheme)
    ensures
        apply_style(apply_style(t)) == apply_style(t),
{
}

/// The configured state does not depend on the prior theme: any two themes
/// agree after the configuration step runs on each.
pub proof fn lemma_style_total_overwrite(t1: StyleTheme, t2: StyleTheme)
    ensures
        apply_style(t1) == apply_style(t2),
{
}

} // verus!
