//! Placement of the normal and golden targets.
//!
//! Both targets are drawn at random whole positions that keep them on the
//! screen. The normal target retries (up to 16 times) to avoid the enemies
//! in play and the wall; the golden one retries to avoid the normal target,
//! the enemies in play and the wall, and is withdrawn when no try succeeds. The
//! golden target appears, with a chance of 25 in 100, from level 2 on.

use vstd::prelude::*;

use crate::collision::{overlaps, rects_overlap};
use crate::game::entities::{
    golden_target_rect, golden_target_rect_of, target_rect, target_rect_of, wall_rect,
    wall_rect_of,
};
use crate::game::state::{level, level_of};
use crate::game::utils::{drawn_value, rand_range, seed_after_draw};
use crate::game::enemy::{enemies_fit, overlaps_enemy_in_play, touches_enemy};
use crate::model::{extent_limit, AppState, Rect};

verus! {

/// Number of tries to find a clear spot for a target.
pub const PLACEMENT_TRIES: u32 = 16;

/// Chance, in percent, that a golden target appears after a pickup.
pub const GOLDEN_SPAWN_CHANCE_PERCENT: i32 = 25;

/// Largest horizontal position of the normal target.
pub fn max_target_x(state: &AppState) -> (r: i32)
    requires
        state.wf(),
    ensures
        r == extent_limit(state.screen_w, state.target_w),
{
    let d = state.screen_w - state.target_w;
    if d > 0 {
        d
    } else {
        0
    }
}

/// Largest vertical position of the normal target.
pub fn max_target_y(state: &AppState) -> (r: i32)
    requires
        state.wf(),
    ensures
        r == extent_limit(state.screen_h, state.target_h),
{
    let d = state.screen_h - state.target_h;
    if d > 0 {
        d
    } else {
        0
    }
}

/// Largest horizontal position of the golden target.
pub fn max_golden_target_x(state: &AppState) -> (r: i32)
    requires
        state.wf(),
    ensures
        r == extent_limit(state.screen_w, state.golden_target_w),
{
    let d = state.screen_w - state.golden_target_w;
    if d > 0 {
        d
    } else {
        0
    }
}

/// Largest vertical position of the golden target.
pub fn max_golden_target_y(state: &AppState) -> (r: i32)
    requires
        state.wf(),
    ensures
        r == extent_limit(state.screen_h, state.golden_target_h),
{
    let d = state.screen_h - state.golden_target_h;
    if d > 0 {
        d
    } else {
        0
    }
}

/// The state after drawing a new position for the normal target: first the
/// horizontal coordinate in `[0, max_target_x]`, then the vertical one.
pub open spec fn target_placed(s: AppState) -> AppState {
    let mx = extent_limit(s.screen_w, s.target_w);
    let my = extent_limit(s.screen_h, s.target_h);
    let seed1 = seed_after_draw(s.rng, mx);
    AppState {
        target_x: drawn_value(s.rng, mx),
        target_y: drawn_value(seed1, my),
        rng: seed_after_draw(seed1, my),
        ..s
    }
}

/// The normal target is clear of every enemy in play and of the wall.
pub open spec fn target_clear(s: AppState, enemies: [Rect; 3]) -> bool {
    !touches_enemy(target_rect_of(s), enemies, s.enemy_count) && !overlaps(
        target_rect_of(s),
        wall_rect_of(s),
    )
}

/// The state after placing the normal target with `tries` tries left: each
/// try draws a position and stops when it is clear; when no try is left,
/// one last draw is kept whatever it is.
pub open spec fn target_placed_away(s: AppState, enemies: [Rect; 3], tries: nat) -> AppState
    decreases tries,
{
    let s1 = target_placed(s);
    if tries == 0 || target_clear(s1, enemies) {
        s1
    } else {
        target_placed_away(s1, enemies, (tries - 1) as nat)
    }
}

/// The state after drawing a new position for the golden target.
pub open spec fn golden_target_placed(s: AppState) -> AppState {
    let mx = extent_limit(s.screen_w, s.golden_target_w);
    let my = extent_limit(s.screen_h, s.golden_target_h);
    let seed1 = seed_after_draw(s.rng, mx);
    AppState {
        golden_target_x: drawn_value(s.rng, mx),
        golden_target_y: drawn_value(seed1, my),
        rng: seed_after_draw(seed1, my),
        ..s
    }
}

/// The golden target is clear of the normal target, of every enemy in play
/// and of the wall.
pub open spec fn golden_target_clear(s: AppState, enemies: [Rect; 3]) -> bool {
    &&& !overlaps(golden_target_rect_of(s), target_rect_of(s))
    &&& !touches_enemy(golden_target_rect_of(s), enemies, s.enemy_count)
    &&& !overlaps(golden_target_rect_of(s), wall_rect_of(s))
}

/// The state after placing the golden target with `tries` tries left: each
/// try draws a position and stops when it is clear; when all tries fail the
/// golden target is withdrawn (it stays at the last drawn position).
pub open spec fn golden_target_placed_safely(s: AppState, enemies: [Rect; 3], tries: nat) -> AppState
    decreases tries,
{
    if tries == 0 {
        AppState { golden_target_active: false, ..s }
    } else {
        let s1 = golden_target_placed(s);
        if golden_target_clear(s1, enemies) {
            s1
        } else {
            golden_target_placed_safely(s1, enemies, (tries - 1) as nat)
        }
    }
}

/// The state after a chance to make the golden target appear: nothing below
/// level 2 or while it is already there; otherwise a draw in `[0, 99]`, and
/// below 25 the golden target appears at a safe place.
pub open spec fn golden_target_spawned(s: AppState, enemies: [Rect; 3]) -> AppState {
    if level_of(s.score as int) < 2 || s.golden_target_active {
        s
    } else {
        let s1 = s.with_rng(seed_after_draw(s.rng, 99));
        if drawn_value(s.rng, 99) < GOLDEN_SPAWN_CHANCE_PERCENT {
            golden_target_placed_safely(AppState { golden_target_active: true, ..s1 }, enemies, 16)
        } else {
            s1
        }
    }
}

/// Draws give values in `[0, limit]`; a target drawn inside the screen
/// keeps the state well formed.
pub proof fn lemma_target_placed_wf(s: AppState)
    requires
        s.wf(),
    ensures
        target_placed(s).wf(),
        0 <= target_placed(s).target_x <= extent_limit(s.screen_w, s.target_w),
        0 <= target_placed(s).target_y <= extent_limit(s.screen_h, s.target_h),
{
}

/// Placing the normal target changes only its position and the seed.
pub proof fn lemma_target_placed_away_keeps(s: AppState, enemies: [Rect; 3], tries: nat)
    ensures
        target_placed_away(s, enemies, tries) == (AppState {
            target_x: target_placed_away(s, enemies, tries).target_x,
            target_y: target_placed_away(s, enemies, tries).target_y,
            rng: target_placed_away(s, enemies, tries).rng,
            ..s
        }),
    decreases tries,
{
    let s1 = target_placed(s);
    if tries == 0 || target_clear(s1, enemies) {
    } else {
        lemma_target_placed_away_keeps(s1, enemies, (tries - 1) as nat);
    }
}

/// The golden target drawn inside the screen keeps the state well formed.
pub proof fn lemma_golden_target_placed_wf(s: AppState)
    requires
        s.wf(),
    ensures
        golden_target_placed(s).wf(),
        0 <= golden_target_placed(s).golden_target_x <= extent_limit(
            s.screen_w,
            s.golden_target_w,
        ),
        0 <= golden_target_placed(s).golden_target_y <= extent_limit(
            s.screen_h,
            s.golden_target_h,
        ),
{
}

/// Draws a new position for the normal target.
pub fn place_target_random(state: &mut AppState)
    requires
        old(state).wf(),
    ensures
        *final(state) == target_placed(*old(state)),
        final(state).wf(),
{
    proof {
        lemma_target_placed_wf(*state);
    }
    let max_x = max_target_x(state);
    let max_y = max_target_y(state);
    state.target_x = rand_range(state, max_x);
    state.target_y = rand_range(state, max_y);
}

/// Places the normal target away from the enemies in play and from the wall: up to 16
/// tries that stop at the first clear spot, then one last draw kept as is.
pub fn place_target_random_away_from_enemy(state: &mut AppState, enemies: &[Rect; 3])
    requires
        old(state).wf(),
        enemies_fit(*enemies, old(state).enemy_count),
    ensures
        *final(state) == target_placed_away(*old(state), *enemies, PLACEMENT_TRIES as nat),
        final(state).wf(),
        final(state).enemy_count == old(state).enemy_count,
{
    proof {
        lemma_target_placed_away_keeps(*state, *enemies, PLACEMENT_TRIES as nat);
    }
    let mut i: u32 = 0;
    while i < PLACEMENT_TRIES
        invariant
            i <= PLACEMENT_TRIES,
            state.wf(),
            enemies_fit(*enemies, state.enemy_count),
            state.enemy_count == old(state).enemy_count,
            target_placed_away(*old(state), *enemies, PLACEMENT_TRIES as nat) == target_placed_away(
                *state,
                *enemies,
                (PLACEMENT_TRIES - i) as nat,
            ),
        decreases PLACEMENT_TRIES - i,
    {
        place_target_random(state);
        let target = target_rect(state);
        let wall = wall_rect(state);
        if !overlaps_enemy_in_play(&target, enemies, state.enemy_count) && !rects_overlap(
            &target,
            &wall,
        ) {
            return;
        }
        i = i + 1;
    }
    place_target_random(state);
}

/// Draws a new position for the golden target.
pub fn place_golden_target_random(state: &mut AppState)
    requires
        old(state).wf(),
    ensures
        *final(state) == golden_target_placed(*old(state)),
        final(state).wf(),
{
    proof {
        lemma_golden_target_placed_wf(*state);
    }
    let max_x = max_golden_target_x(state);
    let max_y = max_golden_target_y(state);
    state.golden_target_x = rand_range(state, max_x);
    state.golden_target_y = rand_range(state, max_y);
}

/// Places the golden target clear of the normal target, of the enemies in
/// play and of
/// the wall in up to 16 tries; when none succeeds the golden target is
/// withdrawn.
pub fn place_golden_target_random_safely(state: &mut AppState, enemies: &[Rect; 3])
    requires
        old(state).wf(),
        enemies_fit(*enemies, old(state).enemy_count),
    ensures
        *final(state) == golden_target_placed_safely(*old(state), *enemies, PLACEMENT_TRIES as nat),
        final(state).wf(),
{
    let mut i: u32 = 0;
    while i < PLACEMENT_TRIES
        invariant
            i <= PLACEMENT_TRIES,
            state.wf(),
            enemies_fit(*enemies, state.enemy_count),
            state.enemy_count == old(state).enemy_count,
            golden_target_placed_safely(*old(state), *enemies, PLACEMENT_TRIES as nat)
                == golden_target_placed_safely(*state, *enemies, (PLACEMENT_TRIES - i) as nat),
        decreases PLACEMENT_TRIES - i,
    {
        place_golden_target_random(state);
        let golden = golden_target_rect(state);
        let target = target_rect(state);
        let wall = wall_rect(state);
        if !rects_overlap(&golden, &target) && !overlaps_enemy_in_play(
            &golden,
            enemies,
            state.enemy_count,
        ) && !rects_overlap(&golden, &wall) {
            return;
        }
        i = i + 1;
    }
    state.golden_target_active = false;
}

/// Gives the golden target a chance to appear: only from level 2 on and
/// when it is not already there; a draw in `[0, 99]` below 25 makes it
/// appear at a safe place.
pub fn try_spawn_golden_target(state: &mut AppState, enemies: &[Rect; 3])
    requires
        old(state).wf(),
        enemies_fit(*enemies, old(state).enemy_count),
    ensures
        *final(state) == golden_target_spawned(*old(state), *enemies),
        final(state).wf(),
{
    if level(state) < 2 {
        return;
    }
    if state.golden_target_active {
        return;
    }
    if rand_range(state, 99) < GOLDEN_SPAWN_CHANCE_PERCENT {
        state.golden_target_active = true;
        place_golden_target_random_safely(state, enemies);
    }
}


/// However many tries are left, the normal target ends up inside the screen
/// (at a position in `[0, max_target]` on both axes) and the state stays well formed.
pub proof fn lemma_target_placed_away_in_screen(s: AppState, enemies: [Rect; 3], tries: nat)
    requires
        s.wf(),
    ensures
        target_placed_away(s, enemies, tries).wf(),
        0 <= target_placed_away(s, enemies, tries).target_x <= extent_limit(s.screen_w, s.target_w),
        0 <= target_placed_away(s, enemies, tries).target_y <= extent_limit(s.screen_h, s.target_h),
    decreases tries,
{
    lemma_target_placed_wf(s);
    let s1 = target_placed(s);
    if tries == 0 || target_clear(s1, enemies) {
    } else {
        lemma_target_placed_away_in_screen(s1, enemies, (tries - 1) as nat);
    }
}

/// A golden target that is still there after a safe placement is clear of
/// the normal target, of the enemies in play and of the wall.
pub proof fn lemma_golden_target_placed_safely_clear(s: AppState, enemies: [Rect; 3], tries: nat)
    ensures
        golden_target_placed_safely(s, enemies, tries).golden_target_active ==> golden_target_clear(
            golden_target_placed_safely(s, enemies, tries),
            enemies,
        ),
    decreases tries,
{
    if tries > 0 {
        let s1 = golden_target_placed(s);
        if !golden_target_clear(s1, enemies) {
            lemma_golden_target_placed_safely_clear(s1, enemies, (tries - 1) as nat);
        }
    }
}

proof fn lemma_golden_target_placed_safely_never_activates(s: AppState, enemies: [Rect; 3], tries: nat)
    ensures
        golden_target_placed_safely(s, enemies, tries).golden_target_active ==> s.golden_target_active,
    decreases tries,
{
    if tries > 0 {
        let s1 = golden_target_placed(s);
        if !golden_target_clear(s1, enemies) {
            lemma_golden_target_placed_safely_never_activates(s1, enemies, (tries - 1) as nat);
        }
    }
}

/// A golden target placed safely and still there afterwards was there
/// before, and its rectangle overlaps neither the normal target's rectangle,
/// nor the rectangle of any enemy in play, nor the wall: a draw that
/// overlaps one of them is never kept.
pub proof fn lemma_golden_target_safe_spot(s: AppState, enemies: [Rect; 3], tries: nat)
    ensures
        ({
            let t = golden_target_placed_safely(s, enemies, tries);
            t.golden_target_active ==> {
                &&& s.golden_target_active
                &&& !overlaps(golden_target_rect_of(t), target_rect_of(t))
                &&& !overlaps(golden_target_rect_of(t), wall_rect_of(t))
                &&& forall|j: int|
                    0 <= j < 3 && j < t.enemy_count ==> !overlaps(
                        golden_target_rect_of(t),
                        #[trigger] enemies[j],
                    )
            }
        }),
        golden_target_placed_safely(s, enemies, tries).enemy_count == s.enemy_count,
        target_rect_of(golden_target_placed_safely(s, enemies, tries)) == target_rect_of(s),
{
    lemma_golden_target_placed_safely_clear(s, enemies, tries);
    lemma_golden_target_placed_safely_keeps(s, enemies, tries);
    lemma_golden_target_placed_safely_never_activates(s, enemies, tries);
    let t = golden_target_placed_safely(s, enemies, tries);
    if t.golden_target_active {
        assert forall|j: int| 0 <= j < 3 && j < t.enemy_count implies !overlaps(
            golden_target_rect_of(t),
            #[trigger] enemies[j],
        ) by {
            if overlaps(golden_target_rect_of(t), enemies[j]) {
                assert(touches_enemy(golden_target_rect_of(t), enemies, t.enemy_count));
            }
        }
    }
}

/// The golden target never appears below level 2, and when it appears it
/// is clear of the normal target, of the enemies in play and of the wall. Nothing but
/// the golden target and the seed changes.
pub proof fn lemma_golden_target_spawn_rules(s: AppState, enemies: [Rect; 3])
    ensures
        level_of(s.score as int) < 2 ==> golden_target_spawned(s, enemies) == s,
        golden_target_spawned(s, enemies).golden_target_active && !s.golden_target_active ==> {
            &&& level_of(s.score as int) >= 2
            &&& golden_target_clear(golden_target_spawned(s, enemies), enemies)
        },
        golden_target_spawned(s, enemies).score == s.score,
        golden_target_spawned(s, enemies).target_x == s.target_x,
        golden_target_spawned(s, enemies).target_y == s.target_y,
{
    if level_of(s.score as int) >= 2 && !s.golden_target_active {
        let s1 = s.with_rng(seed_after_draw(s.rng, 99));
        if drawn_value(s.rng, 99) < GOLDEN_SPAWN_CHANCE_PERCENT {
            let s2 = AppState { golden_target_active: true, ..s1 };
            lemma_golden_target_placed_safely_clear(s2, enemies, 16);
            lemma_golden_target_placed_safely_keeps(s2, enemies, 16);
        }
    }
}

/// A safe placement of the golden target changes only the golden target
/// (position and presence) and the seed.
pub proof fn lemma_golden_target_placed_safely_keeps(s: AppState, enemies: [Rect; 3], tries: nat)
    ensures
        golden_target_placed_safely(s, enemies, tries) == (AppState {
            golden_target_x: golden_target_placed_safely(s, enemies, tries).golden_target_x,
            golden_target_y: golden_target_placed_safely(s, enemies, tries).golden_target_y,
            golden_target_active: golden_target_placed_safely(s, enemies, tries).golden_target_active,
            rng: golden_target_placed_safely(s, enemies, tries).rng,
            ..s
        }),
    decreases tries,
{
    if tries > 0 {
        let s1 = golden_target_placed(s);
        if !golden_target_clear(s1, enemies) {
            lemma_golden_target_placed_safely_keeps(s1, enemies, (tries - 1) as nat);
        }
    }
}

} // verus!
