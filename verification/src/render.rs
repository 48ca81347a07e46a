//! The display render loop, one tick at a time.
//!
//! The loop itself, with its timer and the panel, is the caller's. At
//! each tick the caller asks `update_display` whether there is anything
//! to draw, replays the job it gets on the panel, and reports with
//! `RenderTracker::finish` whether that worked.

use vstd::prelude::*;
use crate::display::{
    draw_main_screen, draw_settings_screen, draw_trip_screen, main_screen_ops,
    settings_screen_ops, trip_screen_ops, Canvas, DrawOpView,
};
use crate::ui_state::{Menu, UIState, UIStateView};

verus! {

/// What was on the panel after the last draw that succeeded: the menu and
/// the selected control, or nothing before the first such draw.
#[derive(Debug, Clone, Copy, PartialEq, Eq)]
pub struct RenderTracker {
    pub last: Option<(Menu, usize)>,
}

/// One screen to draw: the pair it was made for and its operations.
#[derive(Debug, PartialEq, Eq)]
pub struct RenderJob {
    pub menu: Menu,
    pub active_button: usize,
    pub canvas: Canvas,
}

/// The picture of a state: each menu has its own drawing routine.
pub open spec fn screen_ops(state: UIStateView) -> Seq<DrawOpView> {
    match state.current_menu {
        Menu::Main => main_screen_ops(state),
        Menu::Trip => trip_screen_ops(state),
        Menu::Settings => settings_screen_ops(state),
    }
}

/// A tick draws if the live pair is not the one last drawn.
pub open spec fn dispatches(last: Option<(Menu, usize)>, menu: Menu, active_button: usize) -> bool {
    last != Some((menu, active_button))
}

/// The pair last drawn, after a tick: a draw that succeeded replaces it,
/// a draw that failed and a tick without a draw leave it.
pub open spec fn last_after_tick(
    last: Option<(Menu, usize)>,
    menu: Menu,
    active_button: usize,
    drawn: bool,
) -> Option<(Menu, usize)> {
    if dispatches(last, menu, active_button) && drawn {
        Some((menu, active_button))
    } else {
        last
    }
}

impl RenderTracker {
    /// The tracker of a loop that has drawn nothing yet.
    pub fn new() -> (tracker: RenderTracker)
        ensures
            tracker.last is None,
    {
        RenderTracker { last: None }
    }

    /// Records how the drawing of `job` went. A job that was drawn
    /// becomes the pair last drawn; one that failed leaves the tracker as
    /// it was, so that the next tick tries again.
    pub fn finish(&mut self, job: &RenderJob, drawn: bool)
        ensures
            final(self).last == (if drawn {
                Some((job.menu, job.active_button))
            } else {
                old(self).last
            }),
            dispatches(old(self).last, job.menu, job.active_button) ==> final(self).last
                == last_after_tick(old(self).last, job.menu, job.active_button, drawn),
    {
        if drawn {
            self.last = Some((job.menu, job.active_button));
        }
    }
}

/// One tick of the render loop. Compares the live menu and selected
/// control with the pair last drawn. If they are the same there is
/// nothing to do. If they differ, the answer is the job for the screen
/// of the live menu, drawn by that menu's routine and by no other.
pub fn update_display(tracker: &RenderTracker, ui_state: &UIState) -> (job: Option<RenderJob>)
    ensures
        job is Some <==> dispatches(tracker.last, ui_state.current_menu, ui_state.active_button),
        job matches Some(j) ==> {
            &&& j.menu == ui_state.current_menu
            &&& j.active_button == ui_state.active_button
            &&& j.canvas@ == screen_ops(ui_state@)
        },
{
    let unchanged = match tracker.last {
        Some((menu, active_button)) => menu == ui_state.current_menu && active_button
            == ui_state.active_button,
        None => false,
    };
    if unchanged {
        return None;
    }
    let mut canvas = Canvas::new();
    match ui_state.current_menu {
        Menu::Main => {
            draw_main_screen(&mut canvas, ui_state);
        },
        Menu::Trip => {
            draw_trip_screen(&mut canvas, ui_state);
        },
        Menu::Settings => {
            draw_settings_screen(&mut canvas, ui_state);
        },
    }
    assert(canvas@ =~= screen_ops(ui_state@));
    Some(RenderJob { menu: ui_state.current_menu, active_button: ui_state.active_button, canvas })
}

/// The difference check is idempotent. Take two ticks in a row that see
/// the same menu and the same selected control. If the draw of the first
/// one, where there was one, succeeded, the second one draws nothing: the
/// two ticks together draw at most once.
pub proof fn lemma_unchanged_pair_draws_once(
    last: Option<(Menu, usize)>,
    menu: Menu,
    active_button: usize,
    first_drawn: bool,
)
    requires
        dispatches(last, menu, active_button) ==> first_drawn,
    ensures
        !dispatches(last_after_tick(last, menu, active_button, first_drawn), menu, active_button),
{
}

/// A draw that failed is tried again: the tick after it, seeing the same
/// pair, dispatches the same screen once more.
pub proof fn lemma_failed_draw_is_retried(
    last: Option<(Menu, usize)>,
    menu: Menu,
    active_button: usize,
)
    requires
        dispatches(last, menu, active_button),
    ensures
        last_after_tick(last, menu, active_button, false) == last,
        dispatches(last_after_tick(last, menu, active_button, false), menu, active_button),
{
}

} // verus!
