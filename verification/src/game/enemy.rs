//! Integer rules of the enemies: their bounds on the screen, where a new
//! enemy may appear, how many enemies the level calls for, and the placing
//! of the enemies that join.
//!
//! Enemies move continuously; their motion and speed live with the caller,
//! which passes the rounded rectangles of all three enemies.

use vstd::prelude::*;

use crate::collision::{overlaps, rects_overlap};
use crate::game::entities::{wall_rect, wall_rect_of};
use crate::game::state::{level, level_of};
use crate::game::utils::{drawn_value, rand_range, seed_after_draw};
use crate::model::{clamp_to, extent_limit, AppState, Rect};

verus! {

/// Number of tries to find a free spot for an enemy.
pub const ENEMY_PLACEMENT_TRIES: u32 = 32;

/// Largest number of enemies in play.
pub const MAX_ENEMIES: i32 = 3;

/// Largest horizontal position of enemy `index`.
pub fn max_enemy_x(state: &AppState, index: usize) -> (r: i32)
    requires
        state.wf(),
        index < 3,
    ensures
        r == extent_limit(state.screen_w, state.enemies_w[index as int]),
{
    let d = state.screen_w - state.enemies_w[index];
    if d > 0 {
        d
    } else {
        0
    }
}

/// Largest vertical position of enemy `index`.
pub fn max_enemy_y(state: &AppState, index: usize) -> (r: i32)
    requires
        state.wf(),
        index < 3,
    ensures
        r == extent_limit(state.screen_h, state.enemies_h[index as int]),
{
    let d = state.screen_h - state.enemies_h[index];
    if d > 0 {
        d
    } else {
        0
    }
}

/// The rectangles of the enemies that the rules read (the first one, and
/// every one in play) have edges that fit.
pub open spec fn enemies_fit(enemies: [Rect; 3], count: i32) -> bool {
    forall|j: int| 0 <= j < 3 && (j == 0 || j < count) ==> (#[trigger] enemies[j]).edges_fit()
}

/// Some enemy in play overlaps `r`.
pub open spec fn touches_enemy(r: Rect, enemies: [Rect; 3], count: i32) -> bool {
    exists|j: int| 0 <= j < 3 && j < count && overlaps(r, #[trigger] enemies[j])
}

/// Tells whether some enemy in play overlaps `r`.
pub fn overlaps_enemy_in_play(r: &Rect, enemies: &[Rect; 3], count: i32) -> (b: bool)
    requires
        0 <= count <= 3,
        r.edges_fit(),
        enemies_fit(*enemies, count),
    ensures
        b == touches_enemy(*r, *enemies, count),
{
    let n = count as usize;
    let mut j: usize = 0;
    while j < n
        invariant
            n == count,
            0 <= count <= 3,
            j <= n,
            r.edges_fit(),
            enemies_fit(*enemies, count),
            forall|k: int| 0 <= k < j ==> !overlaps(*r, #[trigger] enemies[k]),
        decreases n - j,
    {
        if rects_overlap(r, &enemies[j]) {
            return true;
        }
        j = j + 1;
    }
    false
}

/// A candidate drawn for enemy `index`: horizontal, then vertical position.
pub open spec fn enemy_candidate(s: AppState, index: int) -> Rect {
    let mx = extent_limit(s.screen_w, s.enemies_w[index]);
    let my = extent_limit(s.screen_h, s.enemies_h[index]);
    Rect {
        x: drawn_value(s.rng, mx),
        y: drawn_value(seed_after_draw(s.rng, mx), my),
        w: s.enemies_w[index],
        h: s.enemies_h[index],
    }
}

/// The seed after drawing a candidate for enemy `index`.
pub open spec fn enemy_candidate_seed(s: AppState, index: int) -> u32 {
    let mx = extent_limit(s.screen_w, s.enemies_w[index]);
    let my = extent_limit(s.screen_h, s.enemies_h[index]);
    seed_after_draw(seed_after_draw(s.rng, mx), my)
}

/// A spot for enemy `index` is free: off the wall, off the player, and off
/// every other enemy in play.
pub open spec fn enemy_spot_free(
    s: AppState,
    index: int,
    r: Rect,
    player: Rect,
    enemies: [Rect; 3],
) -> bool {
    &&& !overlaps(r, wall_rect_of(s))
    &&& !overlaps(r, player)
    &&& forall|j: int|
        0 <= j < 3 && j < s.enemy_count && j != index ==> !overlaps(r, #[trigger] enemies[j])
}

/// The outcome of placing enemy `index` with `tries` tries left: the seed
/// afterwards and the first free spot drawn, if any.
#[verifier::opaque]
pub open spec fn enemy_placement(
    s: AppState,
    index: int,
    player: Rect,
    enemies: [Rect; 3],
    tries: nat,
) -> (u32, Option<(i32, i32)>)
    decreases tries,
{
    if tries == 0 {
        (s.rng, None)
    } else {
        let r = enemy_candidate(s, index);
        let seed = enemy_candidate_seed(s, index);
        if enemy_spot_free(s, index, r, player, enemies) {
            (seed, Some((r.x, r.y)))
        } else {
            enemy_placement(s.with_rng(seed), index, player, enemies, (tries - 1) as nat)
        }
    }
}

/// One try of an enemy placement: a free candidate ends it, another one
/// leaves the remaining tries to the advanced seed.
pub proof fn lemma_enemy_placement_step(
    s: AppState,
    index: int,
    player: Rect,
    enemies: [Rect; 3],
    tries: nat,
)
    requires
        tries > 0,
    ensures
        enemy_placement(s, index, player, enemies, tries) == (if enemy_spot_free(
            s,
            index,
            enemy_candidate(s, index),
            player,
            enemies,
        ) {
            (enemy_candidate_seed(s, index), Some((enemy_candidate(s, index).x, enemy_candidate(s, index).y)))
        } else {
            enemy_placement(
                s.with_rng(enemy_candidate_seed(s, index)),
                index,
                player,
                enemies,
                (tries - 1) as nat,
            )
        }),
{
    reveal(enemy_placement);
}

/// With no try left, an enemy placement finds nothing and draws nothing.
pub proof fn lemma_enemy_placement_done(s: AppState, index: int, player: Rect, enemies: [Rect; 3])
    ensures
        enemy_placement(s, index, player, enemies, 0) == (s.rng, None::<(i32, i32)>),
{
    reveal(enemy_placement);
}

fn draw_enemy_candidate(state: &mut AppState, index: usize) -> (r: Rect)
    requires
        old(state).wf(),
        index < 3,
    ensures
        r == enemy_candidate(*old(state), index as int),
        *final(state) == old(state).with_rng(enemy_candidate_seed(*old(state), index as int)),
        final(state).wf(),
        r.edges_fit(),
{
    let max_x = max_enemy_x(state, index);
    let max_y = max_enemy_y(state, index);
    let x = rand_range(state, max_x);
    let y = rand_range(state, max_y);
    Rect { x, y, w: state.enemies_w[index], h: state.enemies_h[index] }
}

fn enemy_spot_is_free(
    state: &AppState,
    index: usize,
    candidate: &Rect,
    wall: &Rect,
    player: &Rect,
    enemies: &[Rect; 3],
) -> (r: bool)
    requires
        state.wf(),
        index < 3,
        *wall == wall_rect_of(*state),
        candidate.edges_fit(),
        player.edges_fit(),
        enemies_fit(*enemies, state.enemy_count),
    ensures
        r == enemy_spot_free(*state, index as int, *candidate, *player, *enemies),
{
    proof {
        crate::game::entities::lemma_state_rects_fit(*state);
    }
    if rects_overlap(candidate, wall) || rects_overlap(candidate, player) {
        return false;
    }
    let count = state.enemy_count as usize;
    let mut j: usize = 0;
    while j < count
        invariant
            count == state.enemy_count,
            0 <= count <= 3,
            j <= count,
            index < 3,
            enemies_fit(*enemies, state.enemy_count),
            candidate.edges_fit(),
            forall|k: int| 0 <= k < j && k != index ==> !overlaps(*candidate, #[trigger] enemies[k]),
        decreases count - j,
    {
        if j != index && rects_overlap(candidate, &enemies[j]) {
            return false;
        }
        j = j + 1;
    }
    true
}

fn try_enemy_spot(
    state: &mut AppState,
    index: usize,
    wall: &Rect,
    player: &Rect,
    enemies: &[Rect; 3],
) -> (r: Option<(i32, i32)>)
    requires
        old(state).wf(),
        index < 3,
        *wall == wall_rect_of(*old(state)),
        player.edges_fit(),
        enemies_fit(*enemies, old(state).enemy_count),
    ensures
        final(state).wf(),
        *final(state) == old(state).with_rng(enemy_candidate_seed(*old(state), index as int)),
        r == (if enemy_spot_free(
            *old(state),
            index as int,
            enemy_candidate(*old(state), index as int),
            *player,
            *enemies,
        ) {
            Some(
                (
                    enemy_candidate(*old(state), index as int).x,
                    enemy_candidate(*old(state), index as int).y,
                ),
            )
        } else {
            None
        }),
{
    let ghost before = *state;
    let candidate = draw_enemy_candidate(state, index);
    assert(wall_rect_of(*state) == wall_rect_of(before));
    if enemy_spot_is_free(state, index, &candidate, wall, player, enemies) {
        Some((candidate.x, candidate.y))
    } else {
        None
    }
}

fn place_enemy_with_tries(
    state: &mut AppState,
    index: usize,
    wall: &Rect,
    player: &Rect,
    enemies: &[Rect; 3],
    tries: u32,
) -> (r: Option<(i32, i32)>)
    requires
        old(state).wf(),
        index < 3,
        *wall == wall_rect_of(*old(state)),
        player.edges_fit(),
        enemies_fit(*enemies, old(state).enemy_count),
    ensures
        final(state).wf(),
        *final(state) == old(state).with_rng(
            enemy_placement(*old(state), index as int, *player, *enemies, tries as nat).0,
        ),
        r == enemy_placement(*old(state), index as int, *player, *enemies, tries as nat).1,
    decreases tries,
{
    if tries == 0 {
        proof {
            lemma_enemy_placement_done(*state, index as int, *player, *enemies);
        }
        return None;
    }
    proof {
        lemma_enemy_placement_step(*state, index as int, *player, *enemies, tries as nat);
    }
    let ghost before = *state;
    let found = try_enemy_spot(state, index, wall, player, enemies);
    if found.is_some() {
        return found;
    }
    let ghost mid = *state;
    assert(wall_rect_of(mid) == wall_rect_of(before));
    let r = place_enemy_with_tries(state, index, wall, player, enemies, tries - 1);
    assert(*state == before.with_rng(state.rng));
    r
}

/// Looks for a free spot for enemy `index` in up to 32 draws, away from the
/// wall, the player and the other enemies in play. Returns the spot found,
/// or `None` when every try failed and the enemy keeps its position.
pub fn place_enemy_random(
    state: &mut AppState,
    index: usize,
    player: &Rect,
    enemies: &[Rect; 3],
) -> (r: Option<(i32, i32)>)
    requires
        old(state).wf(),
        index < 3,
        player.edges_fit(),
        enemies_fit(*enemies, old(state).enemy_count),
    ensures
        final(state).wf(),
        *final(state) == old(state).with_rng(
            enemy_placement(*old(state), index as int, *player, *enemies, ENEMY_PLACEMENT_TRIES as nat).0,
        ),
        r == enemy_placement(
            *old(state),
            index as int,
            *player,
            *enemies,
            ENEMY_PLACEMENT_TRIES as nat,
        ).1,
{
    let wall = wall_rect(state);
    place_enemy_with_tries(state, index, &wall, player, enemies, ENEMY_PLACEMENT_TRIES)
}

/// How many enemies a level calls for: one at level 1, two at levels 2
/// and 3, three from level 4 on.
pub open spec fn enemy_count_for_level(level: int) -> i32 {
    if level == 1 {
        1
    } else if level == 2 || level == 3 {
        2
    } else {
        3
    }
}

/// The number of enemies once the level is taken into account: what the
/// level calls for, or the current number when that is more.
pub open spec fn counted_enemies(s: AppState) -> i32 {
    if enemy_count_for_level(level_of(s.score as int)) > s.enemy_count {
        enemy_count_for_level(level_of(s.score as int))
    } else {
        s.enemy_count
    }
}

/// `r` with its position pulled inside the screen for enemy `index`.
pub open spec fn enemy_rect_on_screen(s: AppState, index: int, r: Rect) -> Rect {
    Rect {
        x: clamp_to(r.x, extent_limit(s.screen_w, s.enemies_w[index])),
        y: clamp_to(r.y, extent_limit(s.screen_h, s.enemies_h[index])),
        w: r.w,
        h: r.h,
    }
}

/// `a` with entry `i` replaced by `v`.
pub open spec fn replaced<T>(a: [T; 3], i: int, v: T) -> [T; 3] {
    [if i == 0 { v } else { a[0] }, if i == 1 { v } else { a[1] }, if i == 2 { v } else { a[2] }]
}

/// The outcome of placing enemies `i` up to the last one in play, one after
/// the other: each is drawn a free spot (see `enemy_placement`) against the
/// rectangles as they stand, then its rectangle, moved or not, is pulled
/// inside the screen for the next ones. Gives the seed afterwards and, per
/// enemy, the spot found (`None` for an enemy not placed or not moved).
pub open spec fn joined_enemies(
    s: AppState,
    i: int,
    player: Rect,
    enemies: [Rect; 3],
    spots: [Option<(i32, i32)>; 3],
) -> (u32, [Option<(i32, i32)>; 3])
    decreases 3 - i,
{
    if 0 <= i < 3 && i < s.enemy_count {
        let found = enemy_placement(s, i, player, enemies, 32).1;
        let moved = match found {
            Some((x, y)) => Rect { x, y, w: s.enemies_w[i], h: s.enemies_h[i] },
            None => enemies[i],
        };
        joined_enemies(
            s.with_rng(enemy_placement(s, i, player, enemies, 32).0),
            i + 1,
            player,
            replaced(enemies, i, enemy_rect_on_screen(s, i, moved)),
            replaced(spots, i, found),
        )
    } else {
        (s.rng, spots)
    }
}

fn clamp_position(v: i32, limit: i32) -> (r: i32)
    requires
        limit >= 0,
    ensures
        r == clamp_to(v, limit),
{
    if v < 0 {
        0
    } else if v > limit {
        limit
    } else {
        v
    }
}

fn place_joining_from(
    state: &mut AppState,
    i: i32,
    player: &Rect,
    enemies: [Rect; 3],
    spots: [Option<(i32, i32)>; 3],
) -> (r: [Option<(i32, i32)>; 3])
    requires
        old(state).wf(),
        0 <= i,
        player.edges_fit(),
        enemies_fit(enemies, old(state).enemy_count),
    ensures
        final(state).wf(),
        *final(state) == old(state).with_rng(joined_enemies(*old(state), i as int, *player, enemies, spots).0),
        r == joined_enemies(*old(state), i as int, *player, enemies, spots).1,
    decreases 3 - i,
{
    if i >= state.enemy_count || i >= 3 {
        return spots;
    }
    let ghost before = *state;
    let index = i as usize;
    let found = place_enemy_random(state, index, player, &enemies);
    let moved = match found {
        Some((x, y)) => Rect { x, y, w: state.enemies_w[index], h: state.enemies_h[index] },
        None => enemies[index],
    };
    let max_x = max_enemy_x(state, index);
    let max_y = max_enemy_y(state, index);
    let on_screen = Rect {
        x: clamp_position(moved.x, max_x),
        y: clamp_position(moved.y, max_y),
        w: moved.w,
        h: moved.h,
    };
    assert(on_screen == enemy_rect_on_screen(before, i as int, moved));
    let next_enemies = [
        if index == 0 { on_screen } else { enemies[0] },
        if index == 1 { on_screen } else { enemies[1] },
        if index == 2 { on_screen } else { enemies[2] },
    ];
    let next_spots = [
        if index == 0 { found } else { spots[0] },
        if index == 1 { found } else { spots[1] },
        if index == 2 { found } else { spots[2] },
    ];
    assert(next_enemies == replaced(enemies, i as int, on_screen));
    assert(next_spots == replaced(spots, i as int, found));
    assert(enemies_fit(next_enemies, state.enemy_count));
    let r = place_joining_from(state, i + 1, player, next_enemies, next_spots);
    assert(*state == before.with_rng(state.rng));
    r
}

/// Places enemies `from` up to the last one in play, one after the other,
/// each at a free spot when one is found (see `place_enemy_random`), and
/// returns, per enemy, the spot found. An enemy left where it was is
/// expected to be pulled inside the screen by the caller, as the placement
/// of the next ones assumes.
pub fn place_joining_enemies(
    state: &mut AppState,
    from: i32,
    player: &Rect,
    enemies: &[Rect; 3],
) -> (r: [Option<(i32, i32)>; 3])
    requires
        old(state).wf(),
        0 <= from,
        player.edges_fit(),
        enemies_fit(*enemies, old(state).enemy_count),
    ensures
        final(state).wf(),
        *final(state) == old(state).with_rng(
            joined_enemies(*old(state), from as int, *player, *enemies, [None, None, None]).0,
        ),
        r == joined_enemies(*old(state), from as int, *player, *enemies, [None, None, None]).1,
{
    place_joining_from(state, from, player, *enemies, [None, None, None])
}

/// Brings the number of enemies up to what the level calls for (it never
/// goes down) and places the enemies that join, returning their spots.
pub fn update_enemy_count(state: &mut AppState, player: &Rect, enemies: &[Rect; 3]) -> (r: [Option<(i32, i32)>; 3])
    requires
        old(state).wf(),
        player.edges_fit(),
        enemies_fit(*enemies, counted_enemies(*old(state))),
    ensures
        final(state).wf(),
        ({
            let counted = AppState { enemy_count: counted_enemies(*old(state)), ..*old(state) };
            let joined = joined_enemies(counted, old(state).enemy_count as int, *player, *enemies, [None, None, None]);
            &&& *final(state) == counted.with_rng(joined.0)
            &&& r == joined.1
        }),
{
    let old_count = state.enemy_count;
    let level = level(state);
    let new_count = if level == 1 {
        1
    } else if level == 2 || level == 3 {
        2
    } else {
        3
    };
    if new_count > state.enemy_count {
        state.enemy_count = new_count;
    }
    place_joining_enemies(state, old_count, player, enemies)
}

/// A spot found for enemy `index` keeps the enemy on the screen, and the
/// enemy's rectangle there overlaps neither the player's rectangle, nor the
/// wall, nor the rectangle of any other enemy in play.
pub proof fn lemma_enemy_placement_sound(
    s: AppState,
    index: int,
    player: Rect,
    enemies: [Rect; 3],
    tries: nat,
)
    requires
        s.wf(),
        0 <= index < 3,
    ensures
        enemy_placement(s, index, player, enemies, tries).1 matches Some((x, y)) ==> {
            &&& enemy_spot_free(
                s,
                index,
                Rect { x, y, w: s.enemies_w[index], h: s.enemies_h[index] },
                player,
                enemies,
            )
            &&& 0 <= x <= extent_limit(s.screen_w, s.enemies_w[index])
            &&& 0 <= y <= extent_limit(s.screen_h, s.enemies_h[index])
        },
        enemy_placement(s, index, player, enemies, tries).1 matches Some((x, y)) ==> {
            let r = Rect { x, y, w: s.enemies_w[index], h: s.enemies_h[index] };
            &&& !overlaps(r, player)
            &&& !overlaps(r, wall_rect_of(s))
            &&& forall|j: int|
                0 <= j < 3 && j < s.enemy_count && j != index ==> !overlaps(r, #[trigger] enemies[j])
        },
    decreases tries,
{
    if tries == 0 {
        lemma_enemy_placement_done(s, index, player, enemies);
    } else {
        lemma_enemy_placement_step(s, index, player, enemies, tries);
        let r = enemy_candidate(s, index);
        if !enemy_spot_free(s, index, r, player, enemies) {
            let s1 = s.with_rng(enemy_candidate_seed(s, index));
            lemma_enemy_placement_sound(s1, index, player, enemies, (tries - 1) as nat);
            assert(wall_rect_of(s1) == wall_rect_of(s));
            assert forall|x: i32, y: i32|
                enemy_spot_free(
                    s1,
                    index,
                    Rect { x, y, w: s.enemies_w[index], h: s.enemies_h[index] },
                    player,
                    enemies,
                ) implies enemy_spot_free(
                s,
                index,
                Rect { x, y, w: s.enemies_w[index], h: s.enemies_h[index] },
                player,
                enemies,
            ) by {}
        }
    }
}

/// The number of enemies never goes down, never exceeds three, and reaches
/// at least what the level calls for; what the levels call for never goes
/// down as the level rises.
pub proof fn lemma_enemy_count_progression(count: i32, level: int, level2: int)
    requires
        0 <= count <= 3,
        1 <= level <= level2,
    ensures
        ({
            let n = enemy_count_for_level(level);
            let updated = if n > count { n } else { count };
            &&& count <= updated <= MAX_ENEMIES
            &&& n <= updated
        }),
        1 <= enemy_count_for_level(level) <= enemy_count_for_level(level2) <= MAX_ENEMIES,
{
}

} // verus!

verus! {

/// The rectangle of enemy `k` at spot `p`.
pub open spec fn spot_rect(s: AppState, k: int, p: (i32, i32)) -> Rect {
    Rect { x: p.0, y: p.1, w: s.enemies_w[k], h: s.enemies_h[k] }
}

/// Spots for the enemies `from` onward, placed one after the other against
/// `enemies` as it evolves: the rectangles of the enemies before `i` that
/// got a spot stand at that spot, the spots found so far are pairwise clear,
/// and none is found yet from `i` on.
pub open spec fn spots_consistent(
    s: AppState,
    i: int,
    enemies: [Rect; 3],
    spots: [Option<(i32, i32)>; 3],
) -> bool {
    &&& forall|k: int|
        0 <= k < 3 && k >= i ==> (#[trigger] spots[k]) is None
    &&& forall|k: int|
        0 <= k < 3 && k < i && (#[trigger] spots[k]) is Some ==> k < s.enemy_count && enemies[k] == spot_rect(s, k, spots[k].unwrap())
    &&& spots_apart(s, spots)
}

/// For two enemies `k1 < k2` that both have a spot, the later one's
/// rectangle does not overlap the earlier one's.
pub open spec fn spots_apart(s: AppState, spots: [Option<(i32, i32)>; 3]) -> bool {
    forall|k1: int, k2: int|
        0 <= k1 < k2 < 3 && (#[trigger] spots[k1]) is Some && (#[trigger] spots[k2]) is Some
            ==> !overlaps(
            spot_rect(s, k2, spots[k2].unwrap()),
            spot_rect(s, k1, spots[k1].unwrap()),
        )
}

proof fn lemma_joined_consistent(
    s: AppState,
    i: int,
    player: Rect,
    enemies: [Rect; 3],
    spots: [Option<(i32, i32)>; 3],
)
    requires
        s.wf(),
        0 <= i,
        spots_consistent(s, i, enemies, spots),
    ensures
        spots_apart(s, joined_enemies(s, i, player, enemies, spots).1),
    decreases 3 - i,
{
    if 0 <= i < 3 && i < s.enemy_count {
        let (seed, found) = enemy_placement(s, i, player, enemies, 32);
        lemma_enemy_placement_sound(s, i, player, enemies, 32);
        let moved = match found {
            Some((x, y)) => Rect { x, y, w: s.enemies_w[i], h: s.enemies_h[i] },
            None => enemies[i],
        };
        let e2 = replaced(enemies, i, enemy_rect_on_screen(s, i, moved));
        let sp2 = replaced(spots, i, found);
        let s1 = s.with_rng(seed);
        assert(spots_consistent(s1, i + 1, e2, sp2)) by {
            assert forall|k1: int, k2: int|
                0 <= k1 < k2 < 3 && (#[trigger] sp2[k1]) is Some && (#[trigger] sp2[k2]) is Some
                    implies !overlaps(
                spot_rect(s1, k2, sp2[k2].unwrap()),
                spot_rect(s1, k1, sp2[k1].unwrap()),
            ) by {
                if k2 == i {
                    assert(spots[k1] is Some);
                    assert(enemies[k1] == spot_rect(s, k1, spots[k1].unwrap()));
                } else {
                    assert(spots[k2] is Some);
                    assert(spots[k1] is Some);
                }
            }
            assert forall|k: int|
                0 <= k < 3 && k < i + 1 && (#[trigger] sp2[k]) is Some implies k < s1.enemy_count
                && e2[k] == spot_rect(s1, k, sp2[k].unwrap()) by {
                if k != i {
                    assert(spots[k] is Some);
                }
            }
        }
        lemma_joined_consistent(s1, i + 1, player, e2, sp2);
        assert(enemy_placement(s, i, player, enemies, 32).0 == seed);
    }
}

/// The enemies placed by one pass land on pairwise clear spots: for two
/// enemies `k1 < k2` that both got a spot, the later one's rectangle does not
/// overlap the earlier one's (a later enemy avoids where the earlier ones were
/// just placed). Only enemies in play, from `from` on, get a spot.
pub proof fn lemma_joined_enemies_apart(s: AppState, from: int, player: Rect, enemies: [Rect; 3])
    requires
        s.wf(),
        0 <= from,
    ensures
        ({
            let spots = joined_enemies(s, from, player, enemies, [None, None, None]).1;
            &&& forall|k: int| 0 <= k < 3 && (#[trigger] spots[k]) is Some ==> from <= k < s.enemy_count
            &&& forall|k1: int, k2: int|
                0 <= k1 < k2 < 3 && (#[trigger] spots[k1]) is Some && (#[trigger] spots[k2]) is Some
                    ==> !overlaps(
                    spot_rect(s, k2, spots[k2].unwrap()),
                    spot_rect(s, k1, spots[k1].unwrap()),
                ) && !overlaps(
                    spot_rect(s, k1, spots[k1].unwrap()),
                    spot_rect(s, k2, spots[k2].unwrap()),
                )
        }),
{
    let none3: [Option<(i32, i32)>; 3] = [None, None, None];
    assert(spots_consistent(s, from, enemies, none3));
    lemma_joined_consistent(s, from, player, enemies, none3);
    lemma_joined_from_only(s, from, from, player, enemies, none3);
}

proof fn lemma_joined_from_only(
    s: AppState,
    from: int,
    i: int,
    player: Rect,
    enemies: [Rect; 3],
    spots: [Option<(i32, i32)>; 3],
)
    requires
        0 <= from <= i,
        forall|k: int| 0 <= k < 3 && (#[trigger] spots[k]) is Some ==> from <= k < s.enemy_count,
    ensures
        forall|k: int|
            0 <= k < 3 && (#[trigger] joined_enemies(s, i, player, enemies, spots).1[k]) is Some
                ==> from <= k < s.enemy_count,
    decreases 3 - i,
{
    if 0 <= i < 3 && i < s.enemy_count {
        let (seed, found) = enemy_placement(s, i, player, enemies, 32);
        let moved = match found {
            Some((x, y)) => Rect { x, y, w: s.enemies_w[i], h: s.enemies_h[i] },
            None => enemies[i],
        };
        lemma_joined_from_only(
            s.with_rng(seed),
            from,
            i + 1,
            player,
            replaced(enemies, i, enemy_rect_on_screen(s, i, moved)),
            replaced(spots, i, found),
        );
    }
}

} // verus!
