//! The six-button screen layout: title bar, content box and one row of
//! six button labels.
//!
//! `Display` records what is to be drawn, as `Canvas` does, and keeps
//! with every operation the message to report should the panel fail at
//! it. The caller replays the steps in order and stops at the first that
//! fails.

use vstd::prelude::*;
use vstd::string::*;
use crate::display::{
    DrawOp, DrawOpView, Font, COLOR_BACKGROUND, COLOR_BORDER, COLOR_BUTTON, COLOR_TEXT,
    COLOR_WHITE, SCREEN_HEIGHT, SCREEN_WIDTH,
};

verus! {

/// One operation and the message that tells of its failure.
#[derive(Debug, PartialEq, Eq)]
pub struct DrawStep {
    pub op: DrawOp,
    pub on_failure: &'static str,
}

/// A step as plain values.
pub struct DrawStepView {
    pub op: DrawOpView,
    pub on_failure: Seq<char>,
}

impl View for DrawStep {
    type V = DrawStepView;

    open spec fn view(&self) -> DrawStepView {
        DrawStepView { op: self.op@, on_failure: self.on_failure@ }
    }
}

/// The steps recorded so far, first to last.
#[derive(Debug, PartialEq, Eq)]
pub struct Display {
    pub steps: Vec<DrawStep>,
}

impl View for Display {
    type V = Seq<DrawStepView>;

    open spec fn view(&self) -> Seq<DrawStepView> {
        self.steps@.map_values(|step: DrawStep| step@)
    }
}

/// Button layout definition: the six labels and the index of the one
/// that is marked.
#[derive(Debug, PartialEq, Eq)]
pub struct ButtonLayout {
    pub labels: [&'static str; 6],
    pub active_index: usize,
}

/// A layout as plain values.
pub struct ButtonLayoutView {
    pub labels: Seq<Seq<char>>,
    pub active_index: nat,
}

impl View for ButtonLayout {
    type V = ButtonLayoutView;

    open spec fn view(&self) -> ButtonLayoutView {
        ButtonLayoutView {
            labels: Seq::new(6, |i: int| self.labels@[i]@),
            active_index: self.active_index as nat,
        }
    }
}

/// One step, from its parts.
pub open spec fn step(op: DrawOpView, on_failure: Seq<char>) -> DrawStepView {
    DrawStepView { op, on_failure }
}

pub open spec fn clear_steps() -> Seq<DrawStepView> {
    seq![step(DrawOpView::Clear { color: COLOR_BACKGROUND }, "Failed to clear display"@)]
}

pub open spec fn text_steps(text: Seq<char>, x: i32, y: i32, color: u16, large: bool) -> Seq<
    DrawStepView,
> {
    seq![
        step(
            DrawOpView::Text {
                text,
                x,
                y,
                font: if large {
                    Font::Font10x20
                } else {
                    Font::Font8x13
                },
                color,
                centered: false,
            },
            "Failed to draw text"@,
        ),
    ]
}

/// The title bar: a filled band over the top 20 rows and the title
/// centred in it.
pub open spec fn title_steps(title: Seq<char>) -> Seq<DrawStepView> {
    seq![
        step(
            DrawOpView::Rect {
                x: 0,
                y: 0,
                width: 160,
                height: 20,
                corner: 0,
                color: COLOR_BUTTON,
                filled: true,
            },
            "Failed to draw title bar"@,
        ),
        step(
            DrawOpView::Text {
                text: title,
                x: 80,
                y: 13,
                font: Font::Font8x13,
                color: COLOR_WHITE,
                centered: true,
            },
            "Failed to draw title text"@,
        ),
    ]
}

pub open spec fn box_steps(x: i32, y: i32, width: u32, height: u32) -> Seq<DrawStepView> {
    seq![
        step(
            DrawOpView::Rect { x, y, width, height, corner: 3, color: COLOR_BORDER, filled: false },
            "Failed to draw box"@,
        ),
    ]
}

/// Where the label of button `i` starts, from the left edge.
pub open spec fn button_x(i: int) -> int {
    if i == 0 {
        12
    } else if i == 1 {
        44
    } else if i == 2 {
        76
    } else if i == 3 {
        108
    } else if i == 4 {
        130
    } else {
        152
    }
}

/// Baseline of the button labels.
pub open spec fn button_y() -> int {
    113
}

/// The steps for the label of button `i`: none for an empty label;
/// otherwise the label, in white and with a frame around it if it is the
/// marked one.
pub open spec fn label_steps(layout: ButtonLayoutView, i: int) -> Seq<DrawStepView> {
    if layout.labels[i].len() == 0 {
        Seq::empty()
    } else if i == layout.active_index {
        seq![
            step(
                DrawOpView::Rect {
                    x: (button_x(i) - 8) as i32,
                    y: (button_y() - 7) as i32,
                    width: 24,
                    height: 14,
                    corner: 0,
                    color: COLOR_WHITE,
                    filled: false,
                },
                "Failed to draw button indicator"@,
            ),
            step(
                DrawOpView::Text {
                    text: layout.labels[i],
                    x: button_x(i) as i32,
                    y: button_y() as i32,
                    font: Font::Font6x10,
                    color: COLOR_WHITE,
                    centered: false,
                },
                "Failed to draw button label"@,
            ),
        ]
    } else {
        seq![
            step(
                DrawOpView::Text {
                    text: layout.labels[i],
                    x: button_x(i) as i32,
                    y: button_y() as i32,
                    font: Font::Font6x10,
                    color: COLOR_TEXT,
                    centered: false,
                },
                "Failed to draw button label"@,
            ),
        ]
    }
}

/// The steps for the labels of the first `n` buttons.
pub open spec fn labels_upto(layout: ButtonLayoutView, n: int) -> Seq<DrawStepView>
    decreases n,
{
    if n <= 0 {
        Seq::empty()
    } else {
        labels_upto(layout, n - 1) + label_steps(layout, n - 1)
    }
}

/// The button row: a filled band over the bottom 30 rows, then the six
/// labels from left to right.
pub open spec fn buttons_steps(layout: ButtonLayoutView) -> Seq<DrawStepView> {
    seq![
        step(
            DrawOpView::Rect {
                x: 0,
                y: 98,
                width: 160,
                height: 30,
                corner: 0,
                color: COLOR_BUTTON,
                filled: true,
            },
            "Failed to draw button area"@,
        ),
    ] + labels_upto(layout, 6)
}

/// A text of the content area: centred, in the middle font.
pub open spec fn notice_step(text: Seq<char>, y: i32, on_failure: Seq<char>) -> DrawStepView {
    step(
        DrawOpView::Text {
            text,
            x: 80,
            y,
            font: Font::Font8x13,
            color: COLOR_TEXT,
            centered: true,
        },
        on_failure,
    )
}

/// The startup screen.
pub open spec fn startup_steps() -> Seq<DrawStepView> {
    clear_steps() + title_steps("VeraMonitor"@) + seq![
        notice_step("Welcome"@, 50, "Failed to draw welcome text"@),
        notice_step("Initializing..."@, 70, "Failed to draw initializing text"@),
        step(
            DrawOpView::Text {
                text: "v0.1.0"@,
                x: 130,
                y: 118,
                font: Font::Font6x10,
                color: COLOR_TEXT,
                centered: false,
            },
            "Failed to draw version text"@,
        ),
    ] + box_steps(5, 25, 150, 68)
}

/// The main screen with a row of buttons.
pub open spec fn main_steps(layout: ButtonLayoutView) -> Seq<DrawStepView> {
    clear_steps() + title_steps("VeraMonitor"@) + box_steps(5, 25, 150, 68) + seq![
        notice_step("Ready"@, 50, "Failed to draw main text"@),
    ] + buttons_steps(layout)
}

impl Display {
    /// A display whose panel was just brought up: the first thing to do
    /// is to clear it.
    pub fn new() -> (display: Display)
        ensures
            display@ == clear_steps(),
    {
        let mut display = Display { steps: Vec::new() };
        assert(display@ =~= Seq::<DrawStepView>::empty());
        display.record(DrawOp::Clear { color: COLOR_BACKGROUND }, "Failed to clear display");
        assert(display@ =~= clear_steps());
        display
    }

    /// Records one more step.
    pub fn record(&mut self, op: DrawOp, on_failure: &'static str)
        ensures
            final(self)@ == old(self)@.push(step(op@, on_failure@)),
    {
        self.steps.push(DrawStep { op, on_failure });
        assert(self@ =~= old(self)@.push(step(op@, on_failure@)));
    }

    /// Clear the display.
    pub fn clear(&mut self)
        ensures
            final(self)@ == old(self)@ + clear_steps(),
    {
        self.record(DrawOp::Clear { color: COLOR_BACKGROUND }, "Failed to clear display");
        assert(self@ =~= old(self)@ + clear_steps());
    }

    /// Draw a text, in the large font or the middle one.
    pub fn draw_text(&mut self, text: &str, x: i32, y: i32, color: u16, large: bool)
        ensures
            final(self)@ == old(self)@ + text_steps(text@, x, y, color, large),
    {
        let font = if large {
            Font::Font10x20
        } else {
            Font::Font8x13
        };
        self.record(
            DrawOp::Text { text: String::from_str(text), x, y, font, color, centered: false },
            "Failed to draw text",
        );
        assert(self@ =~= old(self)@ + text_steps(text@, x, y, color, large));
    }

    /// Draw a title at the top of the screen.
    pub fn draw_title(&mut self, title: &str)
        ensures
            final(self)@ == old(self)@ + title_steps(title@),
    {
        self.record(
            DrawOp::Rect {
                x: 0,
                y: 0,
                width: SCREEN_WIDTH,
                height: 20,
                corner: 0,
                color: COLOR_BUTTON,
                filled: true,
            },
            "Failed to draw title bar",
        );
        let text_x: i32 = (SCREEN_WIDTH as i32) / 2;
        self.record(
            DrawOp::Text {
                text: String::from_str(title),
                x: text_x,
                y: 13,
                font: Font::Font8x13,
                color: COLOR_WHITE,
                centered: true,
            },
            "Failed to draw title text",
        );
        assert(self@ =~= old(self)@ + title_steps(title@));
    }

    /// Draw a bordered box.
    pub fn draw_box(&mut self, x: i32, y: i32, width: u32, height: u32)
        ensures
            final(self)@ == old(self)@ + box_steps(x, y, width, height),
    {
        self.record(
            DrawOp::Rect { x, y, width, height, corner: 3, color: COLOR_BORDER, filled: false },
            "Failed to draw box",
        );
        assert(self@ =~= old(self)@ + box_steps(x, y, width, height));
    }

    /// Draw button labels at the bottom of the screen.
    pub fn draw_buttons(&mut self, layout: &ButtonLayout)
        ensures
            final(self)@ == old(self)@ + buttons_steps(layout@),
    {
        self.record(
            DrawOp::Rect {
                x: 0,
                y: SCREEN_HEIGHT as i32 - 30,
                width: SCREEN_WIDTH,
                height: 30,
                corner: 0,
                color: COLOR_BUTTON,
                filled: true,
            },
            "Failed to draw button area",
        );
        let label_y: i32 = SCREEN_HEIGHT as i32 - 15;
        let positions: [i32; 6] = [12, 44, 76, 108, 130, 152];
        let ghost base = self@;
        let mut i: usize = 0;
        while i < 6
            invariant
                i <= 6,
                label_y == button_y(),
                forall|k: int| 0 <= k < 6 ==> positions@[k] == button_x(k),
                self@ == base + labels_upto(layout@, i as int),
            decreases 6 - i,
        {
            let label: &'static str = layout.labels[i];
            let ghost before = self@;
            assert(positions@[i as int] == button_x(i as int));
            if !label.is_empty() {
                let color = if i == layout.active_index {
                    COLOR_WHITE
                } else {
                    COLOR_TEXT
                };
                if i == layout.active_index {
                    self.record(
                        DrawOp::Rect {
                            x: positions[i] - 8,
                            y: label_y - 7,
                            width: 24,
                            height: 14,
                            corner: 0,
                            color: COLOR_WHITE,
                            filled: false,
                        },
                        "Failed to draw button indicator",
                    );
                }
                self.record(
                    DrawOp::Text {
                        text: String::from_str(label),
                        x: positions[i],
                        y: label_y,
                        font: Font::Font6x10,
                        color,
                        centered: false,
                    },
                    "Failed to draw button label",
                );
            }
            assert(self@ =~= before + label_steps(layout@, i as int));
            assert(self@ =~= base + labels_upto(layout@, i + 1));
            i = i + 1;
        }
        assert(self@ =~= old(self)@ + buttons_steps(layout@));
    }

    /// Records a text of the content area.
    fn draw_notice(&mut self, text: &str, y: i32, on_failure: &'static str)
        ensures
            final(self)@ == old(self)@.push(notice_step(text@, y, on_failure@)),
    {
        self.record(
            DrawOp::Text {
                text: String::from_str(text),
                x: SCREEN_WIDTH as i32 / 2,
                y,
                font: Font::Font8x13,
                color: COLOR_TEXT,
                centered: true,
            },
            on_failure,
        );
    }

    /// Draw the startup screen.
    pub fn draw_startup(&mut self)
        ensures
            final(self)@ == old(self)@ + startup_steps(),
    {
        self.clear();
        self.draw_title("VeraMonitor");
        self.draw_notice("Welcome", 50, "Failed to draw welcome text");
        self.draw_notice("Initializing...", 70, "Failed to draw initializing text");
        self.record(
            DrawOp::Text {
                text: String::from_str("v0.1.0"),
                x: SCREEN_WIDTH as i32 - 30,
                y: SCREEN_HEIGHT as i32 - 10,
                font: Font::Font6x10,
                color: COLOR_TEXT,
                centered: false,
            },
            "Failed to draw version text",
        );
        self.draw_box(5, 25, SCREEN_WIDTH - 10, SCREEN_HEIGHT - 60);
        assert(self@ =~= old(self)@ + startup_steps());
    }

    /// Draw the main screen.
    pub fn draw_main_screen(&mut self, layout: &ButtonLayout)
        ensures
            final(self)@ == old(self)@ + main_steps(layout@),
    {
        self.clear();
        self.draw_title("VeraMonitor");
        self.draw_box(5, 25, SCREEN_WIDTH - 10, SCREEN_HEIGHT - 60);
        self.draw_notice("Ready", 50, "Failed to draw main text");
        self.draw_buttons(layout);
        assert(self@ =~= old(self)@ + main_steps(layout@));
    }
}

} // verus!
