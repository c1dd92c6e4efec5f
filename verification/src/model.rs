//! The data of the game: rectangles and the integer state of a game.

use vstd::prelude::*;

use crate::game::state::PlayState;

verus! {

/// An axis-aligned rectangle in screen pixels: top-left corner and size.
#[derive(Debug, Clone, Copy, PartialEq, Eq, Structural)]
pub struct Rect {
    pub x: i32,
    pub y: i32,
    pub w: i32,
    pub h: i32,
}

impl Rect {
    /// The right and bottom edges of the rectangle fit in an `i32`.
    pub open spec fn edges_fit(self) -> bool {
        &&& i32::MIN <= self.x + self.w <= i32::MAX
        &&& i32::MIN <= self.y + self.h <= i32::MAX
    }
}

/// The integer state of a game: screen and sprite sizes, the positions of
/// the two targets (always whole pixels, since they are drawn by the
/// generator), the score, lives, level progression and the generator's seed.
/// The player's and the enemies' positions move continuously and are kept by
/// the caller, which passes their rounded rectangles to the rules.
pub struct AppState {
    pub screen_w: i32,
    pub screen_h: i32,

    pub player_w: i32,
    pub player_h: i32,

    pub target_x: i32,
    pub target_y: i32,
    pub target_w: i32,
    pub target_h: i32,

    pub golden_target_x: i32,
    pub golden_target_y: i32,
    pub golden_target_w: i32,
    pub golden_target_h: i32,
    pub golden_target_active: bool,

    pub enemies_w: [i32; 3],
    pub enemies_h: [i32; 3],
    pub enemy_count: i32,

    pub score: i32,
    pub lives: i32,
    pub play_state: PlayState,
    pub rng: u32,

    pub player_visible: bool,
}

/// A position and size along one axis whose far edge fits in an `i32`.
pub open spec fn span_fits(pos: i32, size: i32) -> bool {
    0 <= pos && pos + size <= i32::MAX
}

impl AppState {
    /// What every operation keeps: sizes are not negative, the screen is not
    /// negative, the targets lie at non-negative whole positions whose far
    /// edges fit in an `i32`, at most three enemies are in play, and the
    /// score and lives are not negative.
    pub open spec fn wf(self) -> bool {
        &&& self.screen_w >= 0
        &&& self.screen_h >= 0
        &&& self.player_w >= 0
        &&& self.player_h >= 0
        &&& self.target_w >= 0
        &&& self.target_h >= 0
        &&& self.golden_target_w >= 0
        &&& self.golden_target_h >= 0
        &&& forall|i: int| 0 <= i < 3 ==> #[trigger] self.enemies_w[i] >= 0
        &&& forall|i: int| 0 <= i < 3 ==> #[trigger] self.enemies_h[i] >= 0
        &&& span_fits(self.target_x, self.target_w)
        &&& span_fits(self.target_y, self.target_h)
        &&& span_fits(self.golden_target_x, self.golden_target_w)
        &&& span_fits(self.golden_target_y, self.golden_target_h)
        &&& 0 <= self.enemy_count <= 3
        &&& self.score >= 0
        &&& self.lives >= 0
    }
}


/// The largest top-left coordinate that keeps a sprite of `size` on a screen
/// of `screen` pixels: `max(screen - size, 0)`.
pub open spec fn extent_limit(screen: i32, size: i32) -> i32 {
    if screen - size > 0 {
        (screen - size) as i32
    } else {
        0
    }
}

/// Clamps `v` into `[0, limit]` (with `limit` not negative).
pub open spec fn clamp_to(v: i32, limit: i32) -> i32 {
    if v < 0 {
        0
    } else if v > limit {
        limit
    } else {
        v
    }
}

} // verus!
