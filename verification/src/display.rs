//! Screen layout and the drawing routines of the menu screens.
//!
//! A routine does not touch the panel. It records on a `Canvas` the
//! operations that make up its picture, in the order in which they are
//! to be carried out; the caller replays them on the panel.

use vstd::prelude::*;
use vstd::string::*;
use crate::ui_state::{UIState, UIStateView};

verus! {

// Size of the panel in pixels.
pub const SCREEN_WIDTH: u32 = 160;

pub const SCREEN_HEIGHT: u32 = 128;

// Colours as RGB565 words: red in bits 11 to 15, green in bits 5 to 10,
// blue in bits 0 to 4.
/// Black.
pub const COLOR_BACKGROUND: u16 = 0x0000;

/// Red 31, green 63, blue 31: the brightest the panel shows.
pub const COLOR_TEXT: u16 = 0xFFFF;

/// Red 10, green 20, blue 10: dark green.
pub const COLOR_BUTTON: u16 = 0x528A;

/// Red 20, green 40, blue 20: brighter green.
pub const COLOR_BUTTON_ACTIVE: u16 = 0xA514;

/// Red 15, green 30, blue 15: medium green.
pub const COLOR_BORDER: u16 = 0x7BCF;

/// Red 31, green 50, blue 20: yellowish green.
pub const COLOR_HIGHLIGHT: u16 = 0xFE54;

/// White.
pub const COLOR_WHITE: u16 = 0xFFFF;

/// The fixed-width fonts in use, by the size of a glyph in pixels.
#[derive(Debug, Clone, Copy, PartialEq, Eq, Structural)]
pub enum Font {
    Font6x10,
    Font8x13,
    Font9x18Bold,
    Font10x20,
}

/// A rectangular region of the screen that holds one piece of content.
#[derive(Debug, Clone, Copy, PartialEq, Eq, Structural)]
pub struct TextZone {
    pub x: i32,
    pub y: i32,
    pub width: u32,
    pub height: u32,
    pub font: Font,
    pub border: bool,
}

impl TextZone {
    /// The size of the zone, and its far corner, are within what a
    /// coordinate can hold.
    pub open spec fn in_range(self) -> bool {
        &&& self.width <= i32::MAX
        &&& self.height <= i32::MAX
        &&& self.x + self.width <= i32::MAX
        &&& self.y + self.height <= i32::MAX
    }

    /// The zone has pixels inside its border.
    pub open spec fn has_interior(self) -> bool {
        self.width >= 2 && self.height >= 2
    }
}

/// One drawing operation.
#[derive(Debug, PartialEq, Eq)]
pub enum DrawOp {
    /// Fill the whole panel with a colour.
    Clear { color: u16 },
    /// A rectangle with its top left corner at `(x, y)`. With `corner` 0
    /// its corners are square, otherwise they are rounded with that
    /// radius. It is filled, or outlined one pixel wide.
    Rect { x: i32, y: i32, width: u32, height: u32, corner: u32, color: u16, filled: bool },
    /// A line, one pixel wide.
    Line { x0: i32, y0: i32, x1: i32, y1: i32, color: u16 },
    /// A text whose baseline starts at `(x, y)` or, if `centered`, is
    /// centred on it.
    Text { text: String, x: i32, y: i32, font: Font, color: u16, centered: bool },
}

/// A drawing operation as plain values.
pub enum DrawOpView {
    Clear { color: u16 },
    Rect { x: i32, y: i32, width: u32, height: u32, corner: u32, color: u16, filled: bool },
    Line { x0: i32, y0: i32, x1: i32, y1: i32, color: u16 },
    Text { text: Seq<char>, x: i32, y: i32, font: Font, color: u16, centered: bool },
}

impl View for DrawOp {
    type V = DrawOpView;

    open spec fn view(&self) -> DrawOpView {
        match *self {
            DrawOp::Clear { color } => DrawOpView::Clear { color },
            DrawOp::Rect { x, y, width, height, corner, color, filled } => DrawOpView::Rect {
                x,
                y,
                width,
                height,
                corner,
                color,
                filled,
            },
            DrawOp::Line { x0, y0, x1, y1, color } => DrawOpView::Line { x0, y0, x1, y1, color },
            DrawOp::Text { text, x, y, font, color, centered } => DrawOpView::Text {
                text: text@,
                x,
                y,
                font,
                color,
                centered,
            },
        }
    }
}

/// The operations recorded so far, first to last.
#[derive(Debug, PartialEq, Eq)]
pub struct Canvas {
    pub ops: Vec<DrawOp>,
}

impl View for Canvas {
    type V = Seq<DrawOpView>;

    open spec fn view(&self) -> Seq<DrawOpView> {
        self.ops@.map_values(|op: DrawOp| op@)
    }
}

impl Canvas {
    pub fn new() -> (canvas: Canvas)
        ensures
            canvas@ == Seq::<DrawOpView>::empty(),
    {
        let canvas = Canvas { ops: Vec::new() };
        assert(canvas@ =~= Seq::<DrawOpView>::empty());
        canvas
    }

    /// Records one more operation.
    pub fn push(&mut self, op: DrawOp)
        ensures
            final(self)@ == old(self)@.push(op@),
    {
        self.ops.push(op);
        assert(self@ =~= old(self)@.push(op@));
    }
}

/// The five zones of every menu screen: header, content, and the three
/// button labels of the bottom row.
pub open spec fn default_zones() -> Seq<TextZone> {
    seq![
        TextZone { x: 5, y: 5, width: 150, height: 18, font: Font::Font8x13, border: true },
        TextZone { x: 5, y: 28, width: 150, height: 55, font: Font::Font8x13, border: true },
        TextZone { x: 5, y: 88, width: 45, height: 35, font: Font::Font6x10, border: true },
        TextZone { x: 55, y: 88, width: 45, height: 35, font: Font::Font6x10, border: true },
        TextZone { x: 105, y: 88, width: 45, height: 35, font: Font::Font6x10, border: true },
    ]
}

pub fn get_default_zones() -> (zones: [TextZone; 5])
    ensures
        zones@ == default_zones(),
{
    let zones = [
        // Header zone, top of the screen.
        TextZone {
            x: 5,
            y: 5,
            width: SCREEN_WIDTH - 10,
            height: 18,
            font: Font::Font8x13,
            border: true,
        },
        // Main content zone, middle of the screen.
        TextZone {
            x: 5,
            y: 28,
            width: SCREEN_WIDTH - 10,
            height: 55,
            font: Font::Font8x13,
            border: true,
        },
        // Bottom row: left, middle and right button.
        TextZone { x: 5, y: 88, width: 45, height: 35, font: Font::Font6x10, border: true },
        TextZone { x: 55, y: 88, width: 45, height: 35, font: Font::Font6x10, border: true },
        TextZone { x: 105, y: 88, width: 45, height: 35, font: Font::Font6x10, border: true },
    ];
    assert(zones@ =~= default_zones());
    zones
}

/// The border of a zone, if it has one.
pub open spec fn zone_ops(zone: TextZone) -> Seq<DrawOpView> {
    if zone.border {
        seq![
            DrawOpView::Rect {
                x: zone.x,
                y: zone.y,
                width: zone.width,
                height: zone.height,
                corner: 3,
                color: COLOR_BORDER,
                filled: false,
            },
        ]
    } else {
        Seq::empty()
    }
}

/// The fill that marks a zone as the selected one.
pub open spec fn highlight_op(zone: TextZone) -> DrawOpView {
    DrawOpView::Rect {
        x: (zone.x + 1) as i32,
        y: (zone.y + 1) as i32,
        width: (zone.width - 2) as u32,
        height: (zone.height - 2) as u32,
        corner: 0,
        color: COLOR_BUTTON_ACTIVE,
        filled: true,
    }
}

/// A text centred in a zone, in the zone's font.
pub open spec fn centered_text_op(zone: TextZone, text: Seq<char>) -> DrawOpView {
    DrawOpView::Text {
        text,
        x: (zone.x + zone.width / 2) as i32,
        y: (zone.y + zone.height / 2) as i32,
        font: zone.font,
        color: COLOR_TEXT,
        centered: true,
    }
}

/// A zone with its text: the border, the highlight if asked for, the text.
pub open spec fn text_in_zone_ops(zone: TextZone, text: Seq<char>, highlight: bool) -> Seq<
    DrawOpView,
> {
    zone_ops(zone) + (if highlight {
        seq![highlight_op(zone)]
    } else {
        Seq::empty()
    }) + seq![centered_text_op(zone, text)]
}

/// Draws the border of a zone that has one.
pub fn draw_zone(display: &mut Canvas, zone: &TextZone)
    ensures
        final(display)@ == old(display)@ + zone_ops(*zone),
{
    if zone.border {
        display.push(
            DrawOp::Rect {
                x: zone.x,
                y: zone.y,
                width: zone.width,
                height: zone.height,
                corner: 3,
                color: COLOR_BORDER,
                filled: false,
            },
        );
    }
    assert(display@ =~= old(display)@ + zone_ops(*zone));
}

/// Draws a zone with `text` centred in it, filled with the highlight
/// colour first if `highlight` is set.
pub fn draw_text_in_zone(display: &mut Canvas, zone: &TextZone, text: &str, highlight: bool)
    requires
        zone.in_range(),
        highlight ==> zone.has_interior(),
    ensures
        final(display)@ == old(display)@ + text_in_zone_ops(*zone, text@, highlight),
{
    draw_zone(display, zone);
    if highlight {
        display.push(
            DrawOp::Rect {
                x: zone.x + 1,
                y: zone.y + 1,
                width: zone.width - 2,
                height: zone.height - 2,
                corner: 0,
                color: COLOR_BUTTON_ACTIVE,
                filled: true,
            },
        );
    }
    let text_x: i32 = zone.x + (zone.width as i32 / 2);
    let text_y: i32 = zone.y + (zone.height as i32 / 2);
    display.push(
        DrawOp::Text {
            text: String::from_str(text),
            x: text_x,
            y: text_y,
            font: zone.font,
            color: COLOR_TEXT,
            centered: true,
        },
    );
    assert(display@ =~= old(display)@ + text_in_zone_ops(*zone, text@, highlight));
}

/// A whole menu screen: the cleared panel, the header, the content and
/// the three button labels, of which the one whose index is `active` is
/// highlighted.
pub open spec fn menu_screen_ops(
    header: Seq<char>,
    content: Seq<char>,
    left: Seq<char>,
    middle: Seq<char>,
    right: Seq<char>,
    active: nat,
) -> Seq<DrawOpView> {
    seq![DrawOpView::Clear { color: COLOR_BACKGROUND }] + text_in_zone_ops(
        default_zones()[0],
        header,
        false,
    ) + text_in_zone_ops(default_zones()[1], content, false) + text_in_zone_ops(
        default_zones()[2],
        left,
        active == 0,
    ) + text_in_zone_ops(default_zones()[3], middle, active == 1) + text_in_zone_ops(
        default_zones()[4],
        right,
        active == 2,
    )
}

/// The header of the main screen: the user's name and a mark that tells
/// whether the network is up.
pub open spec fn main_header(state: UIStateView) -> Seq<char> {
    state.user_name + " "@ + (if state.wifi_connected {
        "◉"@
    } else {
        "◌"@
    })
}

pub open spec fn main_screen_ops(state: UIStateView) -> Seq<DrawOpView> {
    menu_screen_ops(
        main_header(state),
        "Ready"@,
        "Menu"@,
        "Speak"@,
        "Help"@,
        state.active_button,
    )
}

pub open spec fn trip_screen_ops(state: UIStateView) -> Seq<DrawOpView> {
    menu_screen_ops(
        "Trip Planner"@,
        "No trips yet"@,
        "Back"@,
        "New"@,
        "View"@,
        state.active_button,
    )
}

pub open spec fn settings_screen_ops(state: UIStateView) -> Seq<DrawOpView> {
    menu_screen_ops(
        "Settings"@,
        "WiFi: ?\nLED: Med\nUser: ?"@,
        "Back"@,
        "Edit"@,
        "Save"@,
        state.active_button,
    )
}

/// Draws a menu screen from its five texts.
fn draw_menu_screen(
    display: &mut Canvas,
    header: &str,
    content: &str,
    left: &str,
    middle: &str,
    right: &str,
    active_button: usize,
)
    ensures
        final(display)@ == old(display)@ + menu_screen_ops(
            header@,
            content@,
            left@,
            middle@,
            right@,
            active_button as nat,
        ),
{
    display.push(DrawOp::Clear { color: COLOR_BACKGROUND });
    let zones = get_default_zones();
    draw_text_in_zone(display, &zones[0], header, false);
    draw_text_in_zone(display, &zones[1], content, false);
    draw_text_in_zone(display, &zones[2], left, active_button == 0);
    draw_text_in_zone(display, &zones[3], middle, active_button == 1);
    draw_text_in_zone(display, &zones[4], right, active_button == 2);
    assert(display@ =~= old(display)@ + menu_screen_ops(
        header@,
        content@,
        left@,
        middle@,
        right@,
        active_button as nat,
    ));
}

/// Draws the main menu screen.
pub fn draw_main_screen(display: &mut Canvas, state: &UIState)
    ensures
        final(display)@ == old(display)@ + main_screen_ops(state@),
{
    let mut header = state.user_name.clone();
    header.append(" ");
    header.append(
        if state.wifi_connected {
            "◉"
        } else {
            "◌"
        },
    );
    draw_menu_screen(
        display,
        header.as_str(),
        "Ready",
        "Menu",
        "Speak",
        "Help",
        state.active_button,
    );
}

/// Draws the trip menu screen.
pub fn draw_trip_screen(display: &mut Canvas, state: &UIState)
    ensures
        final(display)@ == old(display)@ + trip_screen_ops(state@),
{
    draw_menu_screen(
        display,
        "Trip Planner",
        "No trips yet",
        "Back",
        "New",
        "View",
        state.active_button,
    );
}

/// Draws the settings menu screen.
pub fn draw_settings_screen(display: &mut Canvas, state: &UIState)
    ensures
        final(display)@ == old(display)@ + settings_screen_ops(state@),
{
    draw_menu_screen(
        display,
        "Settings",
        "WiFi: ?\nLED: Med\nUser: ?",
        "Back",
        "Edit",
        "Save",
        state.active_button,
    );
}

/// Quotient of `a` by a positive `b`, rounded toward zero.
pub open spec fn div_toward_zero(a: int, b: int) -> int {
    if a >= 0 {
        a / b
    } else {
        -((-a) / b)
    }
}

/// How far above or below the middle line the waveform is at step `i`:
/// a jagged pattern that repeats every seven steps.
pub open spec fn wave_offset(i: int, wave_height: int) -> int {
    div_toward_zero((i % 7 - 3) * wave_height, 3)
}

/// Stroke `i` of the waveform: four pixels wide, from the height of
/// step `i` to that of step `i + 1`.
pub open spec fn wave_line(zone: TextZone, i: int) -> DrawOpView {
    let center_y = zone.y + zone.height / 2;
    let wave_height = zone.height as int / 4;
    DrawOpView::Line {
        x0: (zone.x + 5 + 4 * i) as i32,
        y0: (center_y + wave_offset(i, wave_height)) as i32,
        x1: (zone.x + 5 + 4 * (i + 1)) as i32,
        y1: (center_y + wave_offset(i + 1, wave_height)) as i32,
        color: COLOR_TEXT,
    }
}

/// The flat line of a silent waveform, five pixels in from either side.
pub open spec fn flat_line(zone: TextZone) -> DrawOpView {
    DrawOpView::Line {
        x0: (zone.x + 5) as i32,
        y0: (zone.y + zone.height / 2) as i32,
        x1: (zone.x + zone.width - 5) as i32,
        y1: (zone.y + zone.height / 2) as i32,
        color: COLOR_TEXT,
    }
}

/// Number of strokes of the waveform in a zone of a width.
pub open spec fn wave_strokes(width: u32) -> nat {
    ((width - 10) / 4) as nat
}

/// The waveform of a zone: its border, then the flat line, or the
/// strokes from left to right.
pub open spec fn waveform_ops(zone: TextZone, active: bool) -> Seq<DrawOpView> {
    zone_ops(zone) + (if active {
        Seq::new(wave_strokes(zone.width), |i: int| wave_line(zone, i))
    } else {
        seq![flat_line(zone)]
    })
}

/// The zone is wide enough for the margins of the waveform, and the end
/// points of its lines are points that coordinates can name.
pub open spec fn waveform_fits(zone: TextZone, active: bool) -> bool {
    &&& zone.in_range()
    &&& active ==> zone.width >= 10
    &&& !active ==> zone.x + 5 <= i32::MAX && zone.x + zone.width - 5 >= i32::MIN
}

proof fn lemma_wave_offset_bounds(i: int, wave_height: int)
    requires
        0 <= i,
        0 <= wave_height,
    ensures
        -3 * wave_height <= (i % 7 - 3) * wave_height <= 3 * wave_height,
        -wave_height <= wave_offset(i, wave_height) <= wave_height,
{
    let factor = i % 7 - 3;
    assert(-3 <= factor <= 3);
    assert(-3 * wave_height <= factor * wave_height <= 3 * wave_height) by (nonlinear_arith)
        requires
            -3 <= factor <= 3,
            0 <= wave_height,
    ;
}

/// Height of the waveform at step `i`, relative to the middle line.
fn wave_step(i: u32, wave_height: i32) -> (offset: i32)
    requires
        i <= i32::MAX,
        0 <= wave_height <= 0x2000_0000,
    ensures
        offset == wave_offset(i as int, wave_height as int),
        -wave_height <= offset <= wave_height,
{
    proof {
        lemma_wave_offset_bounds(i as int, wave_height as int);
    }
    ((i as i32 % 7) - 3) * wave_height / 3
}

/// Draws a pattern that stands for audio: a flat line while nothing is
/// heard, a jagged wave while `active`.
pub fn draw_audio_waveform(display: &mut Canvas, zone: &TextZone, active: bool)
    requires
        waveform_fits(*zone, active),
    ensures
        final(display)@ == old(display)@ + waveform_ops(*zone, active),
{
    draw_zone(display, zone);
    if !active {
        display.push(
            DrawOp::Line {
                x0: zone.x + 5,
                y0: zone.y + (zone.height as i32 / 2),
                x1: zone.x + zone.width as i32 - 5,
                y1: zone.y + (zone.height as i32 / 2),
                color: COLOR_TEXT,
            },
        );
        assert(display@ =~= old(display)@ + waveform_ops(*zone, active));
        return ;
    }
    let wave_height: i32 = zone.height as i32 / 4;
    let center_y: i32 = zone.y + (zone.height as i32 / 2);
    let step: u32 = 4;
    let strokes: u32 = (zone.width - 10) / step;
    let ghost base = display@;
    let mut i: u32 = 0;
    while i < strokes
        invariant
            i <= strokes,
            step == 4,
            strokes == wave_strokes(zone.width),
            zone.in_range(),
            zone.width >= 10,
            wave_height == zone.height as int / 4,
            center_y == zone.y + zone.height / 2,
            display@ == base + Seq::new(i as nat, |k: int| wave_line(*zone, k)),
        decreases strokes - i,
    {
        let x1: i32 = zone.x + 5 + (i * step) as i32;
        let x2: i32 = zone.x + 5 + ((i + 1) * step) as i32;
        let y1: i32 = center_y + wave_step(i, wave_height);
        let y2: i32 = center_y + wave_step(i + 1, wave_height);
        display.push(DrawOp::Line { x0: x1, y0: y1, x1: x2, y1: y2, color: COLOR_TEXT });
        assert(display@ =~= base + Seq::new((i + 1) as nat, |k: int| wave_line(*zone, k)));
        i = i + 1;
    }
    assert(display@ =~= old(display)@ + waveform_ops(*zone, active));
}

/// The screen shown while the device listens or works on what it heard.
pub open spec fn speaking_ops(listening: bool) -> Seq<DrawOpView> {
    seq![DrawOpView::Clear { color: COLOR_BACKGROUND }] + text_in_zone_ops(
        default_zones()[0],
        if listening {
            "Listening..."@
        } else {
            "Processing..."@
        },
        false,
    ) + waveform_ops(default_zones()[1], listening) + text_in_zone_ops(
        default_zones()[2],
        "Cancel"@,
        true,
    ) + text_in_zone_ops(default_zones()[3], ""@, false) + text_in_zone_ops(
        default_zones()[4],
        ""@,
        false,
    )
}

/// Draws the listening or processing screen. Only the cancel button is
/// live there, and it is the one highlighted.
pub fn draw_speaking_mode(display: &mut Canvas, listening: bool)
    ensures
        final(display)@ == old(display)@ + speaking_ops(listening),
{
    display.push(DrawOp::Clear { color: COLOR_BACKGROUND });
    let zones = get_default_zones();
    draw_text_in_zone(
        display,
        &zones[0],
        if listening {
            "Listening..."
        } else {
            "Processing..."
        },
        false,
    );
    draw_audio_waveform(display, &zones[1], listening);
    draw_text_in_zone(display, &zones[2], "Cancel", true);
    draw_text_in_zone(display, &zones[3], "", false);
    draw_text_in_zone(display, &zones[4], "", false);
    assert(display@ =~= old(display)@ + speaking_ops(listening));
}

/// A filled dot, six pixels across, centred on `(x, y)`.
pub open spec fn route_dot(x: int, y: int) -> DrawOpView {
    DrawOpView::Rect {
        x: (x - 3) as i32,
        y: (y - 3) as i32,
        width: 6,
        height: 6,
        corner: 3,
        color: COLOR_TEXT,
        filled: true,
    }
}

/// Dash `k` of the dotted line from the start point `(25, 68)` toward the
/// end point `(135, 43)`: every second tenth of the way.
pub open spec fn route_dash(k: int) -> DrawOpView {
    DrawOpView::Line {
        x0: (25 + 11 * (2 * k)) as i32,
        y0: (68 - 2 * (2 * k)) as i32,
        x1: (25 + 11 * (2 * k + 1)) as i32,
        y1: (68 - 2 * (2 * k + 1)) as i32,
        color: COLOR_TEXT,
    }
}

/// A label of a route point, in the small font.
pub open spec fn route_label(text: Seq<char>, x: int, y: int) -> DrawOpView {
    DrawOpView::Text {
        text,
        x: x as i32,
        y: y as i32,
        font: Font::Font6x10,
        color: COLOR_TEXT,
        centered: false,
    }
}

/// The route picture in the content zone: its border, the two end
/// points, five dashes between them, and the labels of the end points.
pub open spec fn route_ops() -> Seq<DrawOpView> {
    zone_ops(default_zones()[1]) + seq![route_dot(25, 68), route_dot(135, 43)] + Seq::new(
        5,
        |k: int| route_dash(k),
    ) + seq![route_label("A"@, 15, 68), route_label("B"@, 141, 43)]
}

/// The navigation screen for a route from `from` to `to`.
pub open spec fn navigation_ops(from: Seq<char>, to: Seq<char>) -> Seq<DrawOpView> {
    seq![DrawOpView::Clear { color: COLOR_BACKGROUND }] + text_in_zone_ops(
        default_zones()[0],
        from + " -> "@ + to,
        false,
    ) + route_ops() + text_in_zone_ops(default_zones()[2], "Back"@, true) + text_in_zone_ops(
        default_zones()[3],
        "Details"@,
        false,
    ) + text_in_zone_ops(default_zones()[4], "Share"@, false)
}

/// Draws the navigation screen: the route in the header, a picture of it
/// in the content zone, and the buttons with `Back` highlighted.
pub fn draw_navigation_screen(display: &mut Canvas, from: &str, to: &str)
    ensures
        final(display)@ == old(display)@ + navigation_ops(from@, to@),
{
    display.push(DrawOp::Clear { color: COLOR_BACKGROUND });
    let zones = get_default_zones();

    let mut header = String::from_str(from);
    header.append(" -> ");
    header.append(to);
    draw_text_in_zone(display, &zones[0], header.as_str(), false);

    draw_zone(display, &zones[1]);

    let a_x: i32 = zones[1].x + 20;
    let a_y: i32 = zones[1].y + zones[1].height as i32 - 15;
    let b_x: i32 = zones[1].x + zones[1].width as i32 - 20;
    let b_y: i32 = zones[1].y + 15;

    display.push(
        DrawOp::Rect {
            x: a_x - 3,
            y: a_y - 3,
            width: 6,
            height: 6,
            corner: 3,
            color: COLOR_TEXT,
            filled: true,
        },
    );
    display.push(
        DrawOp::Rect {
            x: b_x - 3,
            y: b_y - 3,
            width: 6,
            height: 6,
            corner: 3,
            color: COLOR_TEXT,
            filled: true,
        },
    );

    let dx: i32 = (b_x - a_x) / 10;
    let dy: i32 = (b_y - a_y) / 10;
    let ghost base = display@;
    let mut i: i32 = 0;
    while i < 9
        invariant
            0 <= i <= 10,
            i % 2 == 0,
            a_x == 25,
            a_y == 68,
            dx == 11,
            dy == -2,
            display@ == base + Seq::new((i / 2) as nat, |k: int| route_dash(k)),
        decreases 10 - i,
    {
        display.push(
            DrawOp::Line {
                x0: a_x + dx * i,
                y0: a_y + dy * i,
                x1: a_x + dx * (i + 1),
                y1: a_y + dy * (i + 1),
                color: COLOR_TEXT,
            },
        );
        assert(display@ =~= base + Seq::new(((i + 2) / 2) as nat, |k: int| route_dash(k)));
        i = i + 2;
    }
    display.push(
        DrawOp::Text {
            text: String::from_str("A"),
            x: a_x - 10,
            y: a_y,
            font: Font::Font6x10,
            color: COLOR_TEXT,
            centered: false,
        },
    );
    display.push(
        DrawOp::Text {
            text: String::from_str("B"),
            x: b_x + 6,
            y: b_y,
            font: Font::Font6x10,
            color: COLOR_TEXT,
            centered: false,
        },
    );
    assert(display@ =~= old(display)@ + seq![DrawOpView::Clear { color: COLOR_BACKGROUND }]
        + text_in_zone_ops(default_zones()[0], from@ + " -> "@ + to@, false) + route_ops());

    draw_text_in_zone(display, &zones[2], "Back", true);
    draw_text_in_zone(display, &zones[3], "Details", false);
    draw_text_in_zone(display, &zones[4], "Share", false);
    assert(display@ =~= old(display)@ + navigation_ops(from@, to@));
}

} // verus!
