//! The rectangles of the targets and of the central wall.
//!
//! The player's and the enemies' rectangles come from positions that move
//! continuously; the caller rounds those and builds their `Rect` itself.

use vstd::prelude::*;

use crate::model::{AppState, Rect};

verus! {

/// Side of the square wall in the middle of the screen.
pub const WALL_SIZE: i32 = 180;

/// The rectangle of the normal target.
pub open spec fn target_rect_of(s: AppState) -> Rect {
    Rect { x: s.target_x, y: s.target_y, w: s.target_w, h: s.target_h }
}

/// The rectangle of the golden target.
pub open spec fn golden_target_rect_of(s: AppState) -> Rect {
    Rect { x: s.golden_target_x, y: s.golden_target_y, w: s.golden_target_w, h: s.golden_target_h }
}

/// Offset that centres the wall along an axis of `screen` pixels:
/// `max((screen - 180) / 2, 0)`.
pub open spec fn wall_offset(screen: i32) -> i32 {
    if screen > WALL_SIZE {
        ((screen - WALL_SIZE) / 2) as i32
    } else {
        0
    }
}

/// The wall: a 180 by 180 square centred on the screen, pushed to the
/// top-left corner when the screen is smaller than it.
pub open spec fn wall_rect_of(s: AppState) -> Rect {
    Rect { x: wall_offset(s.screen_w), y: wall_offset(s.screen_h), w: WALL_SIZE, h: WALL_SIZE }
}

/// The rectangles that the state itself defines have edges that fit.
pub proof fn lemma_state_rects_fit(s: AppState)
    requires
        s.wf(),
    ensures
        target_rect_of(s).edges_fit(),
        golden_target_rect_of(s).edges_fit(),
        wall_rect_of(s).edges_fit(),
{
}

/// The rectangle of the normal target.
pub fn target_rect(state: &AppState) -> (r: Rect)
    ensures
        r == target_rect_of(*state),
{
    Rect { x: state.target_x, y: state.target_y, w: state.target_w, h: state.target_h }
}

/// The rectangle of the golden target.
pub fn golden_target_rect(state: &AppState) -> (r: Rect)
    ensures
        r == golden_target_rect_of(*state),
{
    Rect {
        x: state.golden_target_x,
        y: state.golden_target_y,
        w: state.golden_target_w,
        h: state.golden_target_h,
    }
}

fn centred_offset(screen: i32) -> (r: i32)
    requires
        screen >= 0,
    ensures
        r == wall_offset(screen),
{
    let d = screen - WALL_SIZE;
    if d > 0 {
        d / 2
    } else {
        0
    }
}

/// The wall in the middle of the screen.
pub fn wall_rect(state: &AppState) -> (r: Rect)
    requires
        state.wf(),
    ensures
        r == wall_rect_of(*state),
{
    Rect {
        x: centred_offset(state.screen_w),
        y: centred_offset(state.screen_h),
        w: WALL_SIZE,
        h: WALL_SIZE,
    }
}

} // verus!
