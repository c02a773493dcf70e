//! Platform bridge: translates native window/input events into UI-context
//! input state and tracks the DPI scale factor.
//!
//! Fractional quantities are held exactly: a detected DPI factor arrives in
//! hundredths of a unit and is rounded to the nearest whole factor (the
//! rounding policy that keeps rasterized glyphs crisp), and the UI context's
//! global font scale is recorded as the factor it divides by.

use vstd::prelude::*;
use vstd::pervasive::VecAdditionalExecFns;

verus! {

/// Smallest accepted detected DPI factor, in hundredths (one half).
pub const MIN_SCALE_HUNDREDTHS: u32 = 50;

/// Largest accepted detected DPI factor, in hundredths (one thousand).
pub const MAX_SCALE_HUNDREDTHS: u32 = 100000;

/// Logical font size before DPI scaling, in logical units.
pub const BASE_FONT_SIZE: u32 = 13;

/// Number of tracked key codes.
pub const KEY_COUNT: usize = 256;

/// One native window/input event, already decoded to plain values.
#[derive(Clone, Copy, Debug, PartialEq, Eq, Structural)]
pub enum InputEvent {
    /// The pointer moved to a logical position.
    CursorMoved { x: i64, y: i64 },
    /// A mouse button went down or up.
    MouseButton { button: MouseBtn, down: bool },
    /// The vertical scroll wheel reported a new delta.
    Scroll { delta: i64 },
    /// A keyboard key went down or up.
    Key { code: u8, down: bool },
    /// A character of text input arrived.
    Text { ch: char },
    /// The detected DPI scale factor changed, in hundredths of a unit.
    DpiChanged { scale_hundredths: u32 },
    /// The window's close button was pressed.
    CloseRequested,
    /// Any other native event; it carries nothing the bridge reads.
    Other,
}

/// A mouse button.
#[derive(Clone, Copy, Debug, PartialEq, Eq, Structural)]
pub enum MouseBtn {
    Left,
    Right,
    Middle,
}

/// The bridge state between the native window and the UI context.
pub struct PlatformBridge {
    /// Whether `attach` has run; set exactly once before the first frame.
    pub attached: bool,
    /// The recorded DPI scale factor, rounded to a whole number of units.
    pub scale_factor: u32,
    /// Pointer position, logical units.
    pub cursor_x: i64,
    pub cursor_y: i64,
    /// Mouse button states.
    pub mouse_left: bool,
    pub mouse_right: bool,
    pub mouse_middle: bool,
    /// Latest vertical scroll delta.
    pub scroll: i64,
    /// Key state, indexed by key code.
    pub keys: Vec<bool>,
    /// Text input received so far.
    pub text: Vec<char>,
}

/// Mathematical model of the bridge state.
pub struct BridgeModel {
    pub attached: bool,
    pub scale_factor: u32,
    pub cursor_x: i64,
    pub cursor_y: i64,
    pub mouse_left: bool,
    pub mouse_right: bool,
    pub mouse_middle: bool,
    pub scroll: i64,
    pub keys: Seq<bool>,
    pub text: Seq<char>,
}

impl View for PlatformBridge {
    type V = BridgeModel;

    open spec fn view(&self) -> BridgeModel {
        BridgeModel {
            attached: self.attached,
            scale_factor: self.scale_factor,
            cursor_x: self.cursor_x,
            cursor_y: self.cursor_y,
            mouse_left: self.mouse_left,
            mouse_right: self.mouse_right,
            mouse_middle: self.mouse_middle,
            scroll: self.scroll,
            keys: self.keys@,
            text: self.text@,
        }
    }
}

/// A detected factor in hundredths is representable when it lies between
/// the accepted bounds.
pub open spec fn valid_scale_hundredths(h: u32) -> bool {
    MIN_SCALE_HUNDREDTHS <= h <= MAX_SCALE_HUNDREDTHS
}

/// The DPI-rounding policy: the nearest whole factor, halves rounding up.
pub open spec fn rounded_scale(h: u32) -> u32 {
    ((h + 50) / 100) as u32
}

/// Rounds a detected DPI factor (hundredths of a unit) to the nearest whole
/// factor, the policy selected when the bridge attaches to a window.
pub fn round_scale(h: u32) -> (r: u32)
    requires
        valid_scale_hundredths(h),
    ensures
        r == rounded_scale(h),
        1 <= r <= 1000,
        // r is the nearest integer: it is off from h by at most half a unit
        100 * r <= h + 50 < 100 * r + 100,
{
    (h + 50) / 100
}

/// How one event updates the bridge state. Events the bridge does not
/// recognize, and DPI reports outside the accepted bounds, change nothing:
/// event translation has no error case.
pub open spec fn event_model(b: BridgeModel, e: InputEvent) -> BridgeModel {
    match e {
        InputEvent::CursorMoved { x, y } => (BridgeModel { cursor_x: x, cursor_y: y, ..b }),
        InputEvent::MouseButton { button, down } => match button {
            MouseBtn::Left => (BridgeModel { mouse_left: down, ..b }),
            MouseBtn::Right => (BridgeModel { mouse_right: down, ..b }),
            MouseBtn::Middle => (BridgeModel { mouse_middle: down, ..b }),
        },
        InputEvent::Scroll { delta } => (BridgeModel { scroll: delta, ..b }),
        InputEvent::Key { code, down } => {
            if (code as int) < b.keys.len() {
                BridgeModel { keys: b.keys.update(code as int, down), ..b }
            } else {
                b
            }
        },
        InputEvent::Text { ch } => (BridgeModel { text: b.text.push(ch), ..b }),
        InputEvent::DpiChanged { scale_hundredths } => {
            if valid_scale_hundredths(scale_hundredths) {
                BridgeModel { scale_factor: rounded_scale(scale_hundredths), ..b }
            } else {
                b
            }
        },
        InputEvent::CloseRequested => b,
        InputEvent::Other => b,
    }
}

/// The bridge state applied to a whole sequence of events, first to last.
pub open spec fn events_model(b: BridgeModel, evs: Seq<InputEvent>) -> BridgeModel
    decreases evs.len(),
{
    if evs.len() == 0 {
        b
    } else {
        events_model(event_model(b, evs[0]), evs.drop_first())
    }
}

/// A close request stands somewhere in the event batch.
pub open spec fn has_close(evs: Seq<InputEvent>) -> bool {
    exists|k: int| 0 <= k < evs.len() && evs[k] == InputEvent::CloseRequested
}

/// A well-formed bridge: attached, with a rounded factor in range and a
/// full key table.
pub open spec fn bridge_wf(b: BridgeModel) -> bool {
    &&& b.attached
    &&& 1 <= b.scale_factor <= 1000
    &&& b.keys.len() == KEY_COUNT
}

impl PlatformBridge {
    /// Binds the bridge to its window: selects the whole-factor rounding
    /// policy, records the rounded DPI factor, and clears all input state.
    /// Must run exactly once, before the first frame.
    pub fn attach(scale_hundredths: u32) -> (b: PlatformBridge)
        requires
            valid_scale_hundredths(scale_hundredths),
        ensures
            bridge_wf(b@),
            b@.scale_factor == rounded_scale(scale_hundredths),
            b@.cursor_x == 0 && b@.cursor_y == 0,
            !b@.mouse_left && !b@.mouse_right && !b@.mouse_middle,
            b@.scroll == 0,
            b@.keys == Seq::new(KEY_COUNT as nat, |i: int| false),
            b@.text == Seq::<char>::empty(),
    {
        let mut keys: Vec<bool> = Vec::new();
        let mut i: usize = 0;
        while i < KEY_COUNT
            invariant
                0 <= i <= KEY_COUNT,
                keys@ =~= Seq::new(i as nat, |j: int| false),
            decreases KEY_COUNT - i,
        {
            keys.push(false);
            assert(keys@ =~= Seq::new((i + 1) as nat, |j: int| false));
            i = i + 1;
        }
        let scale = round_scale(scale_hundredths);
        PlatformBridge {
            attached: true,
            scale_factor: scale,
            cursor_x: 0,
            cursor_y: 0,
            mouse_left: false,
            mouse_right: false,
            mouse_middle: false,
            scroll: 0,
            keys,
            text: Vec::new(),
        }
    }

    /// Translates one native event into input state, or records a changed
    /// DPI factor; unrecognized events are ignored. A pure side-effecting
    /// step with no error case.
    pub fn handle_event(&mut self, e: &InputEvent)
        ensures
            final(self)@ == event_model(old(self)@, *e),
    {
        match e {
            InputEvent::CursorMoved { x, y } => {
                self.cursor_x = *x;
                self.cursor_y = *y;
            },
            InputEvent::MouseButton { button, down } => match button {
                MouseBtn::Left => {
                    self.mouse_left = *down;
                },
                MouseBtn::Right => {
                    self.mouse_right = *down;
                },
                MouseBtn::Middle => {
                    self.mouse_middle = *down;
                },
            },
            InputEvent::Scroll { delta } => {
                self.scroll = *delta;
            },
            InputEvent::Key { code, down } => {
                if (*code as usize) < self.keys.len() {
                    self.keys.set(*code as usize, *down);
                }
            },
            InputEvent::Text { ch } => {
                self.text.push(*ch);
            },
            InputEvent::DpiChanged { scale_hundredths } => {
                if MIN_SCALE_HUNDREDTHS <= *scale_hundredths
                    && *scale_hundredths <= MAX_SCALE_HUNDREDTHS {
                    self.scale_factor = round_scale(*scale_hundredths);
                }
            },
            InputEvent::CloseRequested => {},
            InputEvent::Other => {},
        }
    }
}

/// Handling an event keeps the bridge well formed.
pub proof fn lemma_event_preserves_wf(b: BridgeModel, e: InputEvent)
    requires
        bridge_wf(b),
    ensures
        bridge_wf(event_model(b, e)),
{
}

/// DPI-adjusted font configuration.
///
/// `pixel_size` is the rasterized glyph size in physical pixels; the UI
/// context's global font scale is `1 / global_scale_divisor`, recorded by
/// its divisor so the value is exact.
#[derive(Clone, Copy, Debug, PartialEq, Eq, Structural)]
pub struct FontScaling {
    pub pixel_size: u32,
    pub global_scale_divisor: u32,
}

/// The font configuration a whole DPI factor determines.
pub open spec fn font_scaling_model(scale_factor: u32) -> FontScaling {
    FontScaling {
        pixel_size: (BASE_FONT_SIZE * scale_factor) as u32,
        global_scale_divisor: scale_factor,
    }
}

/// Computes the font setup for a recorded DPI factor: glyphs rasterize at
/// `13 * scale_factor` pixels, and layout math stays in logical units
/// because the context's global font scale divides by the same factor.
pub fn font_scaling(scale_factor: u32) -> (f: FontScaling)
    requires
        1 <= scale_factor <= 1000,
    ensures
        f == font_scaling_model(scale_factor),
        f.pixel_size == BASE_FONT_SIZE * scale_factor,
        f.global_scale_divisor == scale_factor,
{
    FontScaling { pixel_size: BASE_FONT_SIZE * scale_factor, global_scale_divisor: scale_factor }
}

/// The character range a font source supplies glyphs for.
#[derive(Clone, Copy, Debug, PartialEq, Eq, Structural)]
pub enum GlyphRange {
    /// Latin plus the Japanese scripts.
    Japanese,
    /// The UI context's default Latin range.
    Default,
}

/// One entry of the font source list; order is fallback priority in the UI
/// context's glyph lookup.
#[derive(Clone, Copy, Debug, PartialEq, Eq, Structural)]
pub enum FontSource {
    /// Embedded glyph data, rasterized at `pixel_size` with a brightness
    /// multiplier in hundredths over the given range.
    Embedded { pixel_size: u32, rasterizer_multiply_hundredths: u32, range: GlyphRange },
    /// The UI context's built-in fallback font at `pixel_size`.
    Fallback { pixel_size: u32 },
}

/// The registered font sources for a recorded DPI factor: the embedded face
/// first — covering the Japanese range, rasterized 1.75 times brighter —
/// then the built-in fallback, both at the DPI-adjusted pixel size.
pub fn font_sources(scale_factor: u32) -> (v: Vec<FontSource>)
    requires
        1 <= scale_factor <= 1000,
    ensures
        v@ =~= seq![
            (FontSource::Embedded {
                pixel_size: (BASE_FONT_SIZE * scale_factor) as u32,
                rasterizer_multiply_hundredths: 175,
                range: GlyphRange::Japanese,
            }),
            (FontSource::Fallback { pixel_size: (BASE_FONT_SIZE * scale_factor) as u32 }),
        ],
{
    let pixel_size = BASE_FONT_SIZE * scale_factor;
    let mut v: Vec<FontSource> = Vec::new();
    v.push(FontSource::Embedded {
        pixel_size,
        rasterizer_multiply_hundredths: 175,
        range: GlyphRange::Japanese,
    });
    v.push(FontSource::Fallback { pixel_size });
    v
}

} // verus!
