//! Integer bounds of the player on the screen.
//!
//! The player's motion, knockback and blinking depend on continuous
//! positions and timers kept by the caller.

use vstd::prelude::*;

use crate::model::{extent_limit, AppState};

verus! {

/// Largest horizontal position of the player.
pub fn max_player_x(state: &AppState) -> (r: i32)
    requires
        state.wf(),
    ensures
        r == extent_limit(state.screen_w, state.player_w),
{
    let d = state.screen_w - state.player_w;
    if d > 0 {
        d
    } else {
        0
    }
}

/// Largest vertical position of the player.
pub fn max_player_y(state: &AppState) -> (r: i32)
    requires
        state.wf(),
    ensures
        r == extent_limit(state.screen_h, state.player_h),
{
    let d = state.screen_h - state.player_h;
    if d > 0 {
        d
    } else {
        0
    }
}

} // verus!
