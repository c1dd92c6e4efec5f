//! The rules of a game, as methods of `AppState`.
//!
//! The thematic submodules hold the rules themselves; the methods here give
//! them to callers on the state, and hold the rules that span several
//! submodules: creating and restarting a game, resizing the screen, taking a
//! touch, picking up targets and being hit by an enemy.

pub mod enemy;
pub mod entities;
pub mod player;
pub mod state;
pub mod target;
pub mod utils;

use vstd::prelude::*;

use crate::collision::{overlaps, rects_overlap};
use crate::game::enemy::{counted_enemies, enemies_fit, enemy_placement, joined_enemies, overlaps_enemy_in_play, touches_enemy};
use crate::game::entities::{golden_target_rect_of, target_rect_of, wall_rect_of};
use crate::game::state::{level_of, PlayState};
use crate::game::target::{golden_target_spawned, target_placed, target_placed_away, golden_target_placed, golden_target_placed_safely};
use crate::game::utils::{drawn_value, lcg_next, seed_after_draw};
use crate::model::{clamp_to, extent_limit, AppState, Rect};

verus! {

/// Seed of the generator in a new game.
pub const INITIAL_SEED: u32 = 0x1234ABCD;

/// The state of a new game on a screen not sized yet.
pub open spec fn initial_state() -> AppState {
    AppState {
        screen_w: 0,
        screen_h: 0,
        player_w: 110,
        player_h: 110,
        target_x: 260,
        target_y: 260,
        target_w: 90,
        target_h: 90,
        golden_target_x: 0,
        golden_target_y: 0,
        golden_target_w: 70,
        golden_target_h: 70,
        golden_target_active: false,
        enemies_w: [80, 80, 80],
        enemies_h: [80, 80, 80],
        enemy_count: 1,
        score: 0,
        lives: 3,
        play_state: PlayState::NotStarted,
        rng: INITIAL_SEED,
        player_visible: true,
    }
}

/// The state after the screen takes a new size: negative sizes count as 0,
/// and the normal target is pulled back inside the screen.
pub open spec fn resized(s: AppState, w: i32, h: i32) -> AppState {
    let sw: i32 = if w > 0 { w } else { 0 };
    let sh: i32 = if h > 0 { h } else { 0 };
    AppState {
        screen_w: sw,
        screen_h: sh,
        target_x: clamp_to(s.target_x, extent_limit(sw, s.target_w)),
        target_y: clamp_to(s.target_y, extent_limit(sh, s.target_h)),
        ..s
    }
}

/// The state of a restarted game: a new game that keeps the screen size
/// and the generator's seed, with the normal target pulled inside the screen.
pub open spec fn restarted(s: AppState) -> AppState {
    resized(AppState { screen_w: s.screen_w, screen_h: s.screen_h, rng: s.rng, ..initial_state() }, s.screen_w, s.screen_h)
}

/// The state and result after the pickup rules: an enemy in play on the
/// normal target moves the target away; then the player on the golden
/// target (when it is there) scores 3 and removes it; otherwise the player
/// on the normal target (where it stood at the start) scores 1, moves the
/// target away and gives the golden target its chance. `None` means no pickup.
pub open spec fn after_target_collisions(s: AppState, player: Rect, enemies: [Rect; 3]) -> (AppState, Option<i32>) {
    pickup_outcome(target_moved_off_enemies(s, enemies), player, target_rect_of(s), enemies)
}

/// The state after an enemy in play on the normal target moves it away
/// (from the enemies in play and the wall).
pub open spec fn target_moved_off_enemies(s: AppState, enemies: [Rect; 3]) -> AppState {
    if touches_enemy(target_rect_of(s), enemies, s.enemy_count) {
        target_placed_away(s, enemies, 16)
    } else {
        s
    }
}

/// What the player at `player` would score on targets where they stand in
/// `s`, the normal one being at `target`: 3 on the golden target when it is
/// there, else 1 on the normal target, else 0.
pub open spec fn gain_at(s: AppState, player: Rect, target: Rect) -> int {
    if s.golden_target_active && overlaps(player, golden_target_rect_of(s)) {
        3
    } else if overlaps(player, target) {
        1
    } else {
        0
    }
}

/// What the pickup rules would add to the score for the player at `player`.
pub open spec fn pickup_gain_of(s: AppState, player: Rect) -> int {
    gain_at(s, player, target_rect_of(s))
}

/// The golden pickup (3 points, golden target removed), else the normal
/// pickup at `target` (1 point, target moved away, golden chance), else nothing.
pub open spec fn pickup_outcome(s: AppState, player: Rect, target: Rect, enemies: [Rect; 3]) -> (AppState, Option<i32>) {
    if s.golden_target_active && overlaps(player, golden_target_rect_of(s)) {
        (AppState { score: (s.score + 3) as i32, golden_target_active: false, ..s }, Some(3i32))
    } else if overlaps(player, target) {
        let s2 = target_placed_away(AppState { score: (s.score + 1) as i32, ..s }, enemies, 16);
        (golden_target_spawned(s2, enemies), Some(1i32))
    } else {
        (s, None)
    }
}

/// The state and result after the player meets the enemies: touching one in
/// play costs a life (never below 0); losing the last one ends the game and
/// hides the player. `Some(-1)` reports the hit.
pub open spec fn after_enemy_collision(s: AppState, player: Rect, enemies: [Rect; 3]) -> (AppState, Option<i32>) {
    if touches_enemy(player, enemies, s.enemy_count) {
        let lives: i32 = if s.lives - 1 > 0 { (s.lives - 1) as i32 } else { 0 };
        if lives == 0 {
            (AppState { lives, play_state: PlayState::GameOver, player_visible: false, ..s }, Some(-1i32))
        } else {
            (AppState { lives, ..s }, Some(-1i32))
        }
    } else {
        (s, None)
    }
}

fn clamp_position(v: i32, limit: i32) -> (r: i32)
    requires
        limit >= 0,
    ensures
        r == clamp_to(v, limit),
{
    if v < 0 {
        0
    } else if v > limit {
        limit
    } else {
        v
    }
}

impl AppState {
    /// A new game: nothing started, three lives, one enemy, no score.
    pub fn new() -> (r: AppState)
        ensures
            r == initial_state(),
            r.wf(),
    {
        AppState {
            screen_w: 0,
            screen_h: 0,
            player_w: 110,
            player_h: 110,
            target_x: 260,
            target_y: 260,
            target_w: 90,
            target_h: 90,
            golden_target_x: 0,
            golden_target_y: 0,
            golden_target_w: 70,
            golden_target_h: 70,
            golden_target_active: false,
            enemies_w: [80, 80, 80],
            enemies_h: [80, 80, 80],
            enemy_count: 1,
            score: 0,
            lives: 3,
            play_state: PlayState::NotStarted,
            rng: INITIAL_SEED,
            player_visible: true,
        }
    }

    /// Gives the screen a new size (negative sizes count as 0) and pulls
    /// the normal target back inside it.
    pub fn set_screen_size(&mut self, w: i32, h: i32)
        requires
            old(self).wf(),
        ensures
            *final(self) == resized(*old(self), w, h),
            final(self).wf(),
    {
        self.screen_w = if w > 0 { w } else { 0 };
        self.screen_h = if h > 0 { h } else { 0 };
        let max_x = self.max_target_x();
        let max_y = self.max_target_y();
        self.target_x = clamp_position(self.target_x, max_x);
        self.target_y = clamp_position(self.target_y, max_y);
    }

    /// Starts a new game on the same screen, keeping the generator's seed,
    /// and places its enemies. `player` and `enemies` are the rectangles of
    /// the new game's player (already pulled inside the screen) and enemies;
    /// the result gives, per enemy, the spot found.
    pub fn restart(&mut self, player: &Rect, enemies: &[Rect; 3]) -> (r: [Option<(i32, i32)>; 3])
        requires
            old(self).wf(),
            player.edges_fit(),
            enemies_fit(*enemies, 1),
        ensures
            final(self).wf(),
            ({
                let joined = joined_enemies(restarted(*old(self)), 0, *player, *enemies, [None, None, None]);
                &&& *final(self) == restarted(*old(self)).with_rng(joined.0)
                &&& r == joined.1
            }),
    {
        let screen_w = self.screen_w;
        let screen_h = self.screen_h;
        let old_rng = self.rng;

        *self = AppState::new();

        self.screen_w = screen_w;
        self.screen_h = screen_h;
        self.rng = old_rng;

        let max_x = self.max_target_x();
        let max_y = self.max_target_y();
        self.target_x = clamp_position(self.target_x, max_x);
        self.target_y = clamp_position(self.target_y, max_y);

        let ghost fresh = *self;
        assert(fresh == restarted(*old(self)));
        assert(level_of(0) == 1);
        assert(counted_enemies(fresh) == 1);
        let _ = self.update_enemy_count(player, enemies);
        assert(*self == fresh);
        self.place_joining_enemies(0, player, enemies)
    }

    /// Takes a touch on the screen: after the game it is ignored, before
    /// it the touch starts the game; in both cases `false`. While playing it
    /// returns `true`: the touch sets where the player heads.
    pub fn accept_touch(&mut self) -> (r: bool)
        ensures
            r == (old(self).play_state == PlayState::Playing),
            final(self).play_state == (if old(self).play_state == PlayState::NotStarted {
                PlayState::Playing
            } else {
                old(self).play_state
            }),
            *final(self) == (AppState { play_state: final(self).play_state, ..*old(self) }),
    {
        if self.play_state.is_game_over() {
            return false;
        }
        if self.play_state.is_not_started() {
            self.play_state.start();
            return false;
        }
        true
    }

    /// Applies the pickup rules once the enemies have moved: an enemy in
    /// play on the normal target moves it away; the player on the golden
    /// target scores 3 (`Some(3)`), on the normal target scores 1
    /// (`Some(1)`), moves it away and gives the golden target its chance.
    /// `None` when nothing is picked up. The caller speeds up the enemies
    /// after a pickup.
    pub fn check_target_collisions(&mut self, player: &Rect, enemies: &[Rect; 3]) -> (r: Option<i32>)
        requires
            old(self).wf(),
            old(self).score + pickup_gain_of(*old(self), *player) <= i32::MAX,
            player.edges_fit(),
            enemies_fit(*enemies, old(self).enemy_count),
        ensures
            final(self).wf(),
            (*final(self), r) == after_target_collisions(*old(self), *player, *enemies),
    {
        let target = self.target_rect();
        self.move_target_off_enemies(enemies);
        self.pick_up_targets(player, &target, enemies)
    }

    /// What the pickup rules would add to the score for the player at
    /// `player`, before any target moves: 3, 1 or 0.
    pub fn pickup_gain(&self, player: &Rect) -> (r: i32)
        requires
            self.wf(),
            player.edges_fit(),
        ensures
            r == pickup_gain_of(*self, *player),
    {
        proof {
            crate::game::entities::lemma_state_rects_fit(*self);
        }
        if self.golden_target_active && rects_overlap(player, &self.golden_target_rect()) {
            3
        } else if rects_overlap(player, &self.target_rect()) {
            1
        } else {
            0
        }
    }

    fn move_target_off_enemies(&mut self, enemies: &[Rect; 3])
        requires
            old(self).wf(),
            enemies_fit(*enemies, old(self).enemy_count),
        ensures
            final(self).wf(),
            *final(self) == target_moved_off_enemies(*old(self), *enemies),
            final(self).score == old(self).score,
            final(self).enemy_count == old(self).enemy_count,
            final(self).golden_target_active == old(self).golden_target_active,
            golden_target_rect_of(*final(self)) == golden_target_rect_of(*old(self)),
    {
        proof {
            crate::game::entities::lemma_state_rects_fit(*self);
        }
        let target = self.target_rect();
        if overlaps_enemy_in_play(&target, enemies, self.enemy_count) {
            self.place_target_random_away_from_enemy(enemies);
            proof {
                crate::game::target::lemma_target_placed_away_keeps(*old(self), *enemies, 16);
            }
        }
    }

    fn pick_up_targets(&mut self, player: &Rect, target: &Rect, enemies: &[Rect; 3]) -> (r: Option<i32>)
        requires
            old(self).wf(),
            old(self).score + gain_at(*old(self), *player, *target) <= i32::MAX,
            player.edges_fit(),
            target.edges_fit(),
            enemies_fit(*enemies, old(self).enemy_count),
        ensures
            final(self).wf(),
            (*final(self), r) == pickup_outcome(*old(self), *player, *target, *enemies),
    {
        proof {
            crate::game::entities::lemma_state_rects_fit(*self);
        }
        if self.golden_target_active {
            let golden = self.golden_target_rect();
            if rects_overlap(player, &golden) {
                self.score = self.score + 3;
                self.golden_target_active = false;
                return Some(3);
            }
        }
        if rects_overlap(player, target) {
            self.score = self.score + 1;
            self.move_target_and_spawn_golden(enemies);
            return Some(1);
        }
        None
    }

    fn move_target_and_spawn_golden(&mut self, enemies: &[Rect; 3])
        requires
            old(self).wf(),
            enemies_fit(*enemies, old(self).enemy_count),
        ensures
            final(self).wf(),
            *final(self) == golden_target_spawned(target_placed_away(*old(self), *enemies, 16), *enemies),
    {
        self.place_target_random_away_from_enemy(enemies);
        self.try_spawn_golden_target(enemies);
    }

    /// Applies the hit rule once the player is vulnerable: touching an enemy
    /// in play costs a life (never below 0), and the last life ends the game
    /// and hides the player; `Some(-1)` then reports the hit. `None` when no
    /// enemy is touched. The caller handles the knockback and the blinking.
    pub fn check_player_enemy_collision(&mut self, player: &Rect, enemies: &[Rect; 3]) -> (r: Option<i32>)
        requires
            old(self).wf(),
            player.edges_fit(),
            enemies_fit(*enemies, old(self).enemy_count),
        ensures
            final(self).wf(),
            (*final(self), r) == after_enemy_collision(*old(self), *player, *enemies),
    {
        if overlaps_enemy_in_play(player, enemies, self.enemy_count) {
            self.lives = if self.lives - 1 > 0 { self.lives - 1 } else { 0 };
            if self.lives == 0 {
                self.play_state.game_over();
                self.player_visible = false;
            }
            return Some(-1);
        }
        None
    }

    /// Advances the generator and returns the new seed.
    pub fn next_rand(&mut self) -> (r: u32)
        ensures
            r == lcg_next(old(self).rng),
            *final(self) == old(self).with_rng(r),
    {
        utils::next_rand(self)
    }

    /// Draws a value in `[0, max_inclusive]` (0 when the bound is not positive).
    pub fn rand_range(&mut self, max_inclusive: i32) -> (r: i32)
        ensures
            r == drawn_value(old(self).rng, max_inclusive),
            *final(self) == old(self).with_rng(seed_after_draw(old(self).rng, max_inclusive)),
            0 <= r,
            max_inclusive > 0 ==> r <= max_inclusive,
            max_inclusive <= 0 ==> r == 0,
    {
        utils::rand_range(self, max_inclusive)
    }

    /// The level: `1 + score / 5`.
    pub fn level(&self) -> (r: i32)
        requires
            self.wf(),
        ensures
            r == level_of(self.score as int),
    {
        state::level(self)
    }

    /// The rectangle of the normal target.
    pub fn target_rect(&self) -> (r: Rect)
        ensures
            r == target_rect_of(*self),
    {
        entities::target_rect(self)
    }

    /// The rectangle of the golden target.
    pub fn golden_target_rect(&self) -> (r: Rect)
        ensures
            r == golden_target_rect_of(*self),
    {
        entities::golden_target_rect(self)
    }

    /// The wall in the middle of the screen.
    pub fn wall_rect(&self) -> (r: Rect)
        requires
            self.wf(),
        ensures
            r == wall_rect_of(*self),
    {
        entities::wall_rect(self)
    }

    /// Largest horizontal position of enemy `index`.
    pub fn max_enemy_x(&self, index: usize) -> (r: i32)
        requires
            self.wf(),
            index < 3,
        ensures
            r == extent_limit(self.screen_w, self.enemies_w[index as int]),
    {
        enemy::max_enemy_x(self, index)
    }

    /// Largest vertical position of enemy `index`.
    pub fn max_enemy_y(&self, index: usize) -> (r: i32)
        requires
            self.wf(),
            index < 3,
        ensures
            r == extent_limit(self.screen_h, self.enemies_h[index as int]),
    {
        enemy::max_enemy_y(self, index)
    }

    /// Looks for a free spot for enemy `index` (see `enemy::place_enemy_random`).
    pub fn place_enemy_random(&mut self, index: usize, player: &Rect, enemies: &[Rect; 3]) -> (r: Option<(i32, i32)>)
        requires
            old(self).wf(),
            index < 3,
            player.edges_fit(),
            enemies_fit(*enemies, old(self).enemy_count),
        ensures
            final(self).wf(),
            *final(self) == old(self).with_rng(
                enemy_placement(*old(self), index as int, *player, *enemies, 32).0,
            ),
            r == enemy_placement(*old(self), index as int, *player, *enemies, 32).1,
    {
        enemy::place_enemy_random(self, index, player, enemies)
    }

    /// Brings the number of enemies up to what the level calls for and
    /// places the enemies that join (see `enemy::update_enemy_count`).
    pub fn update_enemy_count(&mut self, player: &Rect, enemies: &[Rect; 3]) -> (r: [Option<(i32, i32)>; 3])
        requires
            old(self).wf(),
            player.edges_fit(),
            enemies_fit(*enemies, counted_enemies(*old(self))),
        ensures
            final(self).wf(),
            ({
                let counted = AppState { enemy_count: counted_enemies(*old(self)), ..*old(self) };
                let joined = joined_enemies(counted, old(self).enemy_count as int, *player, *enemies, [None, None, None]);
                &&& *final(self) == counted.with_rng(joined.0)
                &&& r == joined.1
            }),
    {
        enemy::update_enemy_count(self, player, enemies)
    }

    /// Places enemies `from` up to the last one in play (see
    /// `enemy::place_joining_enemies`).
    pub fn place_joining_enemies(&mut self, from: i32, player: &Rect, enemies: &[Rect; 3]) -> (r: [Option<(i32, i32)>; 3])
        requires
            old(self).wf(),
            0 <= from,
            player.edges_fit(),
            enemies_fit(*enemies, old(self).enemy_count),
        ensures
            final(self).wf(),
            *final(self) == old(self).with_rng(
                joined_enemies(*old(self), from as int, *player, *enemies, [None, None, None]).0,
            ),
            r == joined_enemies(*old(self), from as int, *player, *enemies, [None, None, None]).1,
    {
        enemy::place_joining_enemies(self, from, player, enemies)
    }

    /// Largest horizontal position of the player.
    pub fn max_player_x(&self) -> (r: i32)
        requires
            self.wf(),
        ensures
            r == extent_limit(self.screen_w, self.player_w),
    {
        player::max_player_x(self)
    }

    /// Largest vertical position of the player.
    pub fn max_player_y(&self) -> (r: i32)
        requires
            self.wf(),
        ensures
            r == extent_limit(self.screen_h, self.player_h),
    {
        player::max_player_y(self)
    }

    /// Largest horizontal position of the normal target.
    pub fn max_target_x(&self) -> (r: i32)
        requires
            self.wf(),
        ensures
            r == extent_limit(self.screen_w, self.target_w),
    {
        target::max_target_x(self)
    }

    /// Largest vertical position of the normal target.
    pub fn max_target_y(&self) -> (r: i32)
        requires
            self.wf(),
        ensures
            r == extent_limit(self.screen_h, self.target_h),
    {
        target::max_target_y(self)
    }

    /// Largest horizontal position of the golden target.
    pub fn max_golden_target_x(&self) -> (r: i32)
        requires
            self.wf(),
        ensures
            r == extent_limit(self.screen_w, self.golden_target_w),
    {
        target::max_golden_target_x(self)
    }

    /// Largest vertical position of the golden target.
    pub fn max_golden_target_y(&self) -> (r: i32)
        requires
            self.wf(),
        ensures
            r == extent_limit(self.screen_h, self.golden_target_h),
    {
        target::max_golden_target_y(self)
    }

    /// Draws a new position for the normal target.
    pub fn place_target_random(&mut self)
        requires
            old(self).wf(),
        ensures
            *final(self) == target_placed(*old(self)),
            final(self).wf(),
    {
        target::place_target_random(self)
    }

    /// Places the normal target away from the enemies in play and from the wall.
    pub fn place_target_random_away_from_enemy(&mut self, enemies: &[Rect; 3])
        requires
            old(self).wf(),
            enemies_fit(*enemies, old(self).enemy_count),
        ensures
            *final(self) == target_placed_away(*old(self), *enemies, 16),
            final(self).wf(),
            final(self).enemy_count == old(self).enemy_count,
    {
        target::place_target_random_away_from_enemy(self, enemies)
    }

    /// Draws a new position for the golden target.
    pub fn place_golden_target_random(&mut self)
        requires
            old(self).wf(),
        ensures
            *final(self) == golden_target_placed(*old(self)),
            final(self).wf(),
    {
        target::place_golden_target_random(self)
    }

    /// Places the golden target at a safe spot, or withdraws it.
    pub fn place_golden_target_random_safely(&mut self, enemies: &[Rect; 3])
        requires
            old(self).wf(),
            enemies_fit(*enemies, old(self).enemy_count),
        ensures
            *final(self) == golden_target_placed_safely(*old(self), *enemies, 16),
            final(self).wf(),
    {
        target::place_golden_target_random_safely(self, enemies)
    }

    /// Gives the golden target its chance to appear.
    pub fn try_spawn_golden_target(&mut self, enemies: &[Rect; 3])
        requires
            old(self).wf(),
            enemies_fit(*enemies, old(self).enemy_count),
        ensures
            *final(self) == golden_target_spawned(*old(self), *enemies),
            final(self).wf(),
    {
        target::try_spawn_golden_target(self, enemies)
    }
}


/// Pickups score exactly what they report: 3 for the golden target (which
/// then leaves), 1 for the normal target, nothing otherwise; lives, the
/// phase and the enemies in play are untouched.
pub proof fn lemma_pickup_scores(s: AppState, player: Rect, enemies: [Rect; 3])
    requires
        s.wf(),
        s.score + pickup_gain_of(s, player) <= i32::MAX,
    ensures
        ({
            let (t, r) = after_target_collisions(s, player, enemies);
            &&& r == None::<i32> || r == Some(1i32) || r == Some(3i32)
            &&& t.score == s.score + pickup_gain_of(s, player)
            &&& r == None::<i32> ==> t.score == s.score
            &&& r == Some(1i32) ==> t.score == s.score + 1
            &&& r == Some(3i32) ==> t.score == s.score + 3 && !t.golden_target_active
                && s.golden_target_active
            &&& t.lives == s.lives
            &&& t.play_state == s.play_state
            &&& t.enemy_count == s.enemy_count
        }),
{
    let s1 = target_moved_off_enemies(s, enemies);
    if touches_enemy(target_rect_of(s), enemies, s.enemy_count) {
        crate::game::target::lemma_target_placed_away_keeps(s, enemies, 16);
    }
    let s2 = AppState { score: (s1.score + 1) as i32, ..s1 };
    crate::game::target::lemma_target_placed_away_keeps(s2, enemies, 16);
    let s3 = target_placed_away(s2, enemies, 16);
    crate::game::target::lemma_golden_target_spawn_rules(s3, enemies);
    if level_of(s3.score as int) >= 2 && !s3.golden_target_active {
        let s4 = s3.with_rng(seed_after_draw(s3.rng, 99));
        if drawn_value(s3.rng, 99) < crate::game::target::GOLDEN_SPAWN_CHANCE_PERCENT {
            crate::game::target::lemma_golden_target_placed_safely_keeps(
                AppState { golden_target_active: true, ..s4 },
                enemies,
                16,
            );
        }
    }
}

/// Touching an enemy in play costs exactly one life, never going below 0;
/// losing the last life ends the game and hides the player; a hit that
/// leaves lives keeps the phase; no touch changes nothing.
pub proof fn lemma_hit_rules(s: AppState, player: Rect, enemies: [Rect; 3])
    requires
        s.wf(),
    ensures
        ({
            let (t, r) = after_enemy_collision(s, player, enemies);
            &&& (r == Some(-1i32)) == touches_enemy(player, enemies, s.enemy_count)
            &&& r != Some(-1i32) ==> r == None::<i32> && t == s
            &&& r == Some(-1i32) ==> t.lives == (if s.lives > 0 { s.lives - 1 } else { 0 })
            &&& t.lives >= 0
            &&& r == Some(-1i32) && t.lives == 0 ==> t.play_state == PlayState::GameOver
                && !t.player_visible
            &&& t.lives > 0 ==> t.play_state == s.play_state
            &&& t.score == s.score
        }),
{
}

/// A restart gives a new game that keeps the screen size and continues the
/// generator from the old seed (the new game's enemies are then drawn from it).
pub proof fn lemma_restart_keeps_screen_and_seed(s: AppState)
    requires
        s.wf(),
    ensures
        restarted(s).screen_w == s.screen_w,
        restarted(s).screen_h == s.screen_h,
        restarted(s).rng == s.rng,
        restarted(s).score == 0,
        restarted(s).lives == 3,
        restarted(s).play_state == PlayState::NotStarted,
        restarted(s).enemy_count == 1,
        restarted(s).wf(),
{
}

} // verus!

verus! {

/// An enemy in play whose rectangle overlaps the player's is a hit: the hit
/// is reported and one life is lost (none below 0), whichever enemy in play
/// it is; the last life ends the game.
pub proof fn lemma_hit_by_any_enemy_in_play(s: AppState, player: Rect, enemies: [Rect; 3], j: int)
    requires
        s.wf(),
        0 <= j < 3,
        j < s.enemy_count,
        overlaps(player, enemies[j]),
    ensures
        after_enemy_collision(s, player, enemies).1 == Some(-1i32),
        after_enemy_collision(s, player, enemies).0.lives == (if s.lives > 0 { s.lives - 1 } else { 0 }),
        after_enemy_collision(s, player, enemies).0.lives == 0 ==> after_enemy_collision(
            s,
            player,
            enemies,
        ).0.play_state == PlayState::GameOver,
{
    assert(touches_enemy(player, enemies, s.enemy_count));
}

/// A player overlapping no enemy in play is not hit: nothing changes.
pub proof fn lemma_no_hit_without_contact(s: AppState, player: Rect, enemies: [Rect; 3])
    requires
        forall|j: int| 0 <= j < 3 && j < s.enemy_count ==> !overlaps(player, #[trigger] enemies[j]),
    ensures
        after_enemy_collision(s, player, enemies) == (s, None::<i32>),
{
}

/// Which pickup happens depends only on where the player stands against the
/// targets as they are: on the golden target while it is there, 3 points and
/// the golden target leaves; otherwise on the normal target (whether or not a
/// golden target is there), 1 point; otherwise nothing and the score stays.
pub proof fn lemma_pickup_by_position(s: AppState, player: Rect, enemies: [Rect; 3])
    requires
        s.wf(),
        s.score <= i32::MAX - 3,
    ensures
        ({
            let on_golden = s.golden_target_active && overlaps(player, golden_target_rect_of(s));
            let on_target = overlaps(player, target_rect_of(s));
            let (t, r) = after_target_collisions(s, player, enemies);
            &&& on_golden ==> r == Some(3i32) && t.score == s.score + 3 && !t.golden_target_active
            &&& !on_golden && on_target ==> r == Some(1i32) && t.score == s.score + 1
            &&& !on_golden && !on_target ==> r == None::<i32> && t.score == s.score
            &&& on_golden ==> pickup_gain_of(s, player) == 3
            &&& !on_golden && on_target ==> pickup_gain_of(s, player) == 1
            &&& !on_golden && !on_target ==> pickup_gain_of(s, player) == 0
        }),
{
    lemma_pickup_scores(s, player, enemies);
    if touches_enemy(target_rect_of(s), enemies, s.enemy_count) {
        crate::game::target::lemma_target_placed_away_keeps(s, enemies, 16);
    }
}

} // verus!
