use sdl_game::collision::rects_overlap;
use sdl_game::game::enemy::{max_enemy_x, max_enemy_y, place_enemy_random, update_enemy_count};
use sdl_game::game::entities::{golden_target_rect, target_rect, wall_rect};
use sdl_game::game::player::{max_player_x, max_player_y};
use sdl_game::game::state::{level, PlayState};
use sdl_game::game::target::{
    max_golden_target_x, max_golden_target_y, max_target_x, max_target_y,
    place_golden_target_random, place_golden_target_random_safely, place_target_random,
    place_target_random_away_from_enemy, try_spawn_golden_target,
};
use sdl_game::game::utils::{next_rand, rand_range};
use sdl_game::{AppState, Rect};

const SEED: u32 = 0x1234ABCD;

fn rect(x: i32, y: i32, w: i32, h: i32) -> Rect {
    Rect { x, y, w, h }
}

fn sized_game(w: i32, h: i32) -> AppState {
    let mut s = AppState::new();
    s.set_screen_size(w, h);
    s
}

fn only_first(r: Rect) -> [Rect; 3] {
    [r, rect(5000, 5000, 80, 80), rect(5000, 5000, 80, 80)]
}

fn start_enemies() -> [Rect; 3] {
    [rect(420, 180, 80, 80), rect(500, 500, 80, 80), rect(350, 300, 80, 80)]
}

#[test]
fn rects_overlap_detects_shared_area() {
    assert!(rects_overlap(&rect(0, 0, 10, 10), &rect(5, 5, 10, 10)));
    assert!(rects_overlap(&rect(0, 0, 100, 100), &rect(10, 10, 5, 5)));
}

#[test]
fn rects_overlap_ignores_touching_edges() {
    assert!(!rects_overlap(&rect(0, 0, 10, 10), &rect(10, 0, 10, 10)));
    assert!(!rects_overlap(&rect(0, 0, 10, 10), &rect(0, 10, 10, 10)));
    assert!(!rects_overlap(&rect(0, 0, 10, 10), &rect(30, 30, 10, 10)));
}

#[test]
fn rects_overlap_is_symmetric() {
    let pairs = [
        (rect(0, 0, 10, 10), rect(5, 5, 10, 10)),
        (rect(0, 0, 10, 10), rect(10, 0, 10, 10)),
        (rect(-5, 3, 7, 2), rect(1, 4, 1, 1)),
    ];
    for (a, b) in pairs.iter() {
        assert_eq!(rects_overlap(a, b), rects_overlap(b, a));
    }
}

#[test]
fn play_state_transitions() {
    let mut p = PlayState::NotStarted;
    assert!(p.is_not_started() && !p.is_playing() && !p.is_game_over());
    p.start();
    assert_eq!(p, PlayState::Playing);
    assert!(p.is_playing() && !p.is_not_started() && !p.is_game_over());
    p.game_over();
    assert_eq!(p, PlayState::GameOver);
    assert!(p.is_game_over() && !p.is_playing() && !p.is_not_started());
    p.reset();
    assert_eq!(p, PlayState::NotStarted);
}

#[test]
fn level_is_one_plus_score_over_five() {
    let mut s = AppState::new();
    for (score, expected) in [(0, 1), (4, 1), (5, 2), (9, 2), (14, 3), (25, 6)] {
        s.score = score;
        assert_eq!(level(&s), expected);
        assert_eq!(s.level(), expected);
    }
}

#[test]
fn generator_follows_the_linear_congruence() {
    let mut s = AppState::new();
    assert_eq!(s.rng, SEED);
    assert_eq!(next_rand(&mut s), 3969145544);
    assert_eq!(s.rng, 3969145544);
    assert_eq!(s.next_rand(), 967524231);
    assert_eq!(s.next_rand(), 2577397562);
}

#[test]
fn rand_range_with_no_positive_bound_draws_nothing() {
    let mut s = AppState::new();
    assert_eq!(rand_range(&mut s, 0), 0);
    assert_eq!(rand_range(&mut s, -7), 0);
    assert_eq!(s.rng, SEED);
}

#[test]
fn rand_range_takes_the_next_seed_modulo_the_span() {
    let mut s = AppState::new();
    assert_eq!(rand_range(&mut s, 30), 1);
    assert_eq!(s.rng, 3969145544);
    assert_eq!(s.rand_range(100), 84);
    let mut t = AppState::new();
    for _ in 0..200 {
        let v = t.rand_range(9);
        assert!((0..=9).contains(&v));
    }
}

#[test]
fn new_game_defaults() {
    let s = AppState::new();
    assert_eq!((s.screen_w, s.screen_h), (0, 0));
    assert_eq!((s.player_w, s.player_h), (110, 110));
    assert_eq!(target_rect(&s), rect(260, 260, 90, 90));
    assert_eq!(golden_target_rect(&s), rect(0, 0, 70, 70));
    assert!(!s.golden_target_active);
    assert_eq!(s.enemies_w, [80, 80, 80]);
    assert_eq!(s.enemy_count, 1);
    assert_eq!((s.score, s.lives), (0, 3));
    assert_eq!(s.play_state, PlayState::NotStarted);
    assert!(s.player_visible);
}

#[test]
fn wall_is_centred_and_pushed_to_the_corner_on_small_screens() {
    assert_eq!(wall_rect(&sized_game(720, 1280)), rect(270, 550, 180, 180));
    assert_eq!(sized_game(720, 1280).wall_rect(), rect(270, 550, 180, 180));
    assert_eq!(wall_rect(&sized_game(100, 50)), rect(0, 0, 180, 180));
    assert_eq!(wall_rect(&sized_game(181, 183)), rect(0, 1, 180, 180));
}

#[test]
fn bounds_keep_sprites_on_screen() {
    let s = sized_game(720, 1280);
    assert_eq!((max_player_x(&s), max_player_y(&s)), (610, 1170));
    assert_eq!((s.max_player_x(), s.max_player_y()), (610, 1170));
    assert_eq!((max_target_x(&s), max_target_y(&s)), (630, 1190));
    assert_eq!((max_golden_target_x(&s), max_golden_target_y(&s)), (650, 1210));
    assert_eq!((max_enemy_x(&s, 2), max_enemy_y(&s, 2)), (640, 1200));
    assert_eq!((s.max_enemy_x(0), s.max_enemy_y(1)), (640, 1200));
    let small = sized_game(50, 50);
    assert_eq!((max_player_x(&small), max_target_y(&small), max_enemy_x(&small, 0)), (0, 0, 0));
}

#[test]
fn screen_size_clamps_the_target() {
    let mut s = AppState::new();
    s.set_screen_size(-5, 100);
    assert_eq!((s.screen_w, s.screen_h), (0, 100));
    assert_eq!((s.target_x, s.target_y), (0, 10));
    let big = sized_game(720, 1280);
    assert_eq!((big.target_x, big.target_y), (260, 260));
}

#[test]
fn target_is_drawn_inside_the_screen() {
    let mut s = sized_game(720, 1280);
    place_target_random(&mut s);
    assert_eq!((s.target_x, s.target_y), (318, 1089));
    assert_eq!(s.rng, 967524231);
    let mut t = sized_game(720, 1280);
    for _ in 0..100 {
        t.place_target_random();
        assert!(0 <= t.target_x && t.target_x <= 630);
        assert!(0 <= t.target_y && t.target_y <= 1190);
    }
}

#[test]
fn target_placement_retries_when_blocked() {
    let mut s = sized_game(720, 1280);
    place_target_random_away_from_enemy(&mut s, &only_first(rect(0, 0, 80, 80)));
    assert_eq!((s.target_x, s.target_y), (318, 1089));
    let mut t = sized_game(720, 1280);
    t.place_target_random_away_from_enemy(&only_first(rect(318, 1089, 90, 90)));
    assert_eq!((t.target_x, t.target_y), (449, 1005));
    assert_eq!(t.rng, 3938032977);
}

#[test]
fn target_placement_keeps_the_last_draw_when_no_spot_is_clear() {
    // A 100 by 100 screen lies entirely under the wall: 17 draws are made.
    let mut s = sized_game(100, 100);
    place_target_random_away_from_enemy(&mut s, &only_first(rect(0, 0, 1, 1)));
    assert_eq!((s.target_x, s.target_y, s.rng), (5, 1, 3722799015));
}

#[test]
fn golden_target_placement() {
    let mut s = sized_game(720, 1280);
    place_golden_target_random(&mut s);
    assert_eq!((s.golden_target_x, s.golden_target_y), (497, 625));
    let mut t = sized_game(720, 1280);
    t.golden_target_active = true;
    place_golden_target_random_safely(&mut t, &only_first(rect(0, 0, 80, 80)));
    assert_eq!((t.golden_target_x, t.golden_target_y, t.golden_target_active), (497, 625, true));
    assert_eq!(t.rng, 967524231);
}

#[test]
fn golden_target_is_withdrawn_when_no_spot_is_safe() {
    let mut s = sized_game(100, 100);
    s.golden_target_active = true;
    s.place_golden_target_random_safely(&only_first(rect(0, 0, 1, 1)));
    assert!(!s.golden_target_active);
}

#[test]
fn golden_target_never_spawns_before_level_two() {
    let mut s = sized_game(720, 1280);
    s.score = 4;
    try_spawn_golden_target(&mut s, &only_first(rect(0, 0, 80, 80)));
    assert!(!s.golden_target_active);
    assert_eq!(s.rng, SEED);
}

#[test]
fn golden_target_spawns_on_a_low_draw() {
    // Draw 44 of [0, 99]: no spawn, one draw consumed.
    let mut s = sized_game(720, 1280);
    s.score = 5;
    s.try_spawn_golden_target(&only_first(rect(0, 0, 80, 80)));
    assert!(!s.golden_target_active);
    assert_eq!(s.rng, 3969145544);
    // Draw 24: the golden target appears.
    let mut t = sized_game(720, 1280);
    t.score = 5;
    t.rng = 3938032977;
    t.try_spawn_golden_target(&only_first(rect(0, 0, 80, 80)));
    assert!(t.golden_target_active);
    assert_eq!((t.golden_target_x, t.golden_target_y), (536, 1121));
    assert_eq!(t.rng, 3943936270);
}

#[test]
fn golden_target_does_not_spawn_twice() {
    let mut s = sized_game(720, 1280);
    s.score = 5;
    s.golden_target_active = true;
    s.golden_target_x = 11;
    s.try_spawn_golden_target(&only_first(rect(0, 0, 80, 80)));
    assert_eq!((s.golden_target_x, s.rng), (11, SEED));
}

#[test]
fn enemy_placement_finds_a_free_spot() {
    let player = rect(100, 100, 110, 110);
    let mut s = sized_game(720, 1280);
    s.enemy_count = 2;
    assert_eq!(place_enemy_random(&mut s, 1, &player, &start_enemies()), Some((470, 1033)));
    assert_eq!(s.rng, 967524231);
}

#[test]
fn enemy_placement_gives_up_after_thirty_two_tries() {
    let player = rect(100, 100, 110, 110);
    let mut s = sized_game(100, 100);
    s.enemy_count = 2;
    assert_eq!(s.place_enemy_random(1, &player, &start_enemies()), None);
    assert_eq!(s.rng, 2325934605);
}

#[test]
fn enemy_count_follows_the_level_and_never_falls() {
    let player = rect(100, 100, 110, 110);
    let enemies = start_enemies();
    let mut s = sized_game(720, 1280);
    assert_eq!(update_enemy_count(&mut s, &player, &enemies), [None, None, None]);
    assert_eq!((s.enemy_count, s.rng), (1, SEED));
    s.score = 5;
    s.update_enemy_count(&player, &enemies);
    assert_eq!(s.enemy_count, 2);
    s.score = 14;
    s.update_enemy_count(&player, &enemies);
    assert_eq!(s.enemy_count, 2);
    s.score = 15;
    s.update_enemy_count(&player, &enemies);
    assert_eq!(s.enemy_count, 3);
    s.score = 500;
    s.update_enemy_count(&player, &enemies);
    assert_eq!(s.enemy_count, 3);
    s.score = 0;
    s.update_enemy_count(&player, &enemies);
    assert_eq!(s.enemy_count, 3);
}

#[test]
fn joining_enemies_are_placed_one_after_the_other() {
    let player = rect(100, 100, 110, 110);
    let mut s = sized_game(720, 1280);
    s.score = 15;
    let spots = update_enemy_count(&mut s, &player, &start_enemies());
    assert_eq!(s.enemy_count, 3);
    assert_eq!(spots, [None, Some((470, 1033)), Some((21, 816))]);
    assert_eq!(s.rng, 3938032977);
}

#[test]
fn joining_enemies_without_a_free_spot_stay_put() {
    let player = rect(100, 100, 110, 110);
    let mut s = sized_game(100, 100);
    s.score = 5;
    let spots = s.update_enemy_count(&player, &start_enemies());
    assert_eq!(s.enemy_count, 2);
    assert_eq!(spots, [None, None, None]);
    assert_eq!(s.rng, 2325934605);
}

#[test]
fn placing_enemies_from_an_index() {
    let player = rect(100, 100, 110, 110);
    let mut s = sized_game(720, 1280);
    s.enemy_count = 3;
    let spots = s.place_joining_enemies(1, &player, &start_enemies());
    assert_eq!(spots, [None, Some((470, 1033)), Some((21, 816))]);
    let mut t = sized_game(720, 1280);
    assert_eq!(t.place_joining_enemies(1, &player, &start_enemies()), [None, None, None]);
    assert_eq!(t.rng, SEED);
}

#[test]
fn target_placement_avoids_every_enemy_in_play() {
    let blocker = rect(318, 1089, 90, 90);
    let enemies = [rect(0, 0, 80, 80), blocker, rect(900, 900, 80, 80)];
    let mut s = sized_game(720, 1280);
    s.enemy_count = 2;
    place_target_random_away_from_enemy(&mut s, &enemies);
    assert_eq!((s.target_x, s.target_y, s.rng), (449, 1005, 3938032977));
    // An enemy that is not in play does not block the target.
    let mut t = sized_game(720, 1280);
    t.place_target_random_away_from_enemy(&enemies);
    assert_eq!((t.target_x, t.target_y), (318, 1089));
}

#[test]
fn golden_target_avoids_every_enemy_in_play() {
    let enemies = [rect(0, 0, 80, 80), rect(497, 625, 80, 80), rect(900, 900, 80, 80)];
    let mut s = sized_game(720, 1280);
    s.enemy_count = 2;
    s.golden_target_active = true;
    place_golden_target_random_safely(&mut s, &enemies);
    assert!(s.golden_target_active);
    assert_eq!((s.golden_target_x, s.golden_target_y, s.rng), (26, 242, 3938032977));
    let mut t = sized_game(720, 1280);
    t.golden_target_active = true;
    t.place_golden_target_random_safely(&enemies);
    assert_eq!((t.golden_target_x, t.golden_target_y), (497, 625));
}

#[test]
fn touch_starts_then_steers() {
    let mut s = AppState::new();
    assert!(!s.accept_touch());
    assert_eq!(s.play_state, PlayState::Playing);
    assert!(s.accept_touch());
    assert_eq!(s.play_state, PlayState::Playing);
    s.play_state.game_over();
    assert!(!s.accept_touch());
    assert_eq!(s.play_state, PlayState::GameOver);
}

#[test]
fn picking_up_the_target_scores_one() {
    let mut s = sized_game(720, 1280);
    let r = s.check_target_collisions(&rect(250, 250, 110, 110), &start_enemies());
    assert_eq!(r, Some(1));
    assert_eq!(s.score, 1);
    assert_eq!((s.target_x, s.target_y), (318, 1089));
    assert!(!s.golden_target_active);
    assert_eq!(s.rng, 967524231);
}

#[test]
fn no_pickup_changes_nothing() {
    let mut s = sized_game(720, 1280);
    let r = s.check_target_collisions(&rect(100, 100, 110, 110), &start_enemies());
    assert_eq!(r, None);
    assert_eq!((s.score, s.target_x, s.target_y, s.rng), (0, 260, 260, SEED));
}

#[test]
fn enemy_on_the_target_moves_it() {
    let mut s = sized_game(720, 1280);
    let enemies = [rect(270, 270, 80, 80), rect(500, 500, 80, 80), rect(350, 300, 80, 80)];
    assert_eq!(s.check_target_collisions(&rect(100, 100, 110, 110), &enemies), None);
    assert_eq!((s.score, s.target_x, s.target_y), (0, 318, 1089));
}

#[test]
fn pickup_counts_where_the_target_stood_before_an_enemy_moved_it() {
    let mut s = sized_game(720, 1280);
    let enemies = [rect(270, 270, 80, 80), rect(500, 500, 80, 80), rect(350, 300, 80, 80)];
    assert_eq!(s.check_target_collisions(&rect(250, 250, 110, 110), &enemies), Some(1));
    assert_eq!((s.score, s.target_x, s.target_y, s.rng), (1, 449, 1005, 3938032977));
}

#[test]
fn golden_pickup_scores_three() {
    let mut s = sized_game(720, 1280);
    s.golden_target_active = true;
    s.golden_target_x = 400;
    s.golden_target_y = 900;
    s.score = 7;
    let r = s.check_target_collisions(&rect(390, 890, 110, 110), &start_enemies());
    assert_eq!(r, Some(3));
    assert_eq!(s.score, 10);
    assert!(!s.golden_target_active);
    assert_eq!((s.target_x, s.target_y, s.rng), (260, 260, SEED));
}

#[test]
fn pickup_at_level_two_may_bring_the_golden_target() {
    let mut s = sized_game(720, 1280);
    s.score = 4;
    s.rng = 967524231;
    assert_eq!(s.check_target_collisions(&rect(250, 250, 110, 110), &start_enemies()), Some(1));
    assert_eq!(s.score, 5);
    assert_eq!((s.target_x, s.target_y), (449, 1005));
    assert!(s.golden_target_active);
    assert_eq!((s.golden_target_x, s.golden_target_y, s.rng), (536, 1121, 3943936270));
}

#[test]
fn enemy_hit_costs_a_life() {
    let mut s = sized_game(720, 1280);
    s.play_state.start();
    let enemies = start_enemies();
    assert_eq!(s.check_player_enemy_collision(&rect(400, 170, 110, 110), &enemies), Some(-1));
    assert_eq!(s.lives, 2);
    assert_eq!(s.play_state, PlayState::Playing);
    assert!(s.player_visible);
}

#[test]
fn missing_the_enemies_changes_nothing() {
    let mut s = sized_game(720, 1280);
    s.play_state.start();
    // Enemy 2 is not in play: only one enemy is.
    assert_eq!(s.check_player_enemy_collision(&rect(340, 290, 10, 10), &start_enemies()), None);
    assert_eq!(s.lives, 3);
}

#[test]
fn last_life_ends_the_game() {
    let mut s = sized_game(720, 1280);
    s.play_state.start();
    s.lives = 1;
    assert_eq!(s.check_player_enemy_collision(&rect(400, 170, 110, 110), &start_enemies()), Some(-1));
    assert_eq!(s.lives, 0);
    assert_eq!(s.play_state, PlayState::GameOver);
    assert!(!s.player_visible);
    assert_eq!(s.check_player_enemy_collision(&rect(400, 170, 110, 110), &start_enemies()), Some(-1));
    assert_eq!(s.lives, 0);
}

#[test]
fn restart_keeps_screen_and_seed() {
    let mut s = sized_game(200, 300);
    s.score = 42;
    s.lives = 0;
    s.enemy_count = 3;
    s.play_state.game_over();
    s.rng = 77;
    s.player_visible = false;
    // A 200 by 300 screen has no free spot for the enemy: no draw succeeds.
    let spots = s.restart(&rect(90, 100, 110, 110), &start_enemies());
    assert_eq!(spots, [None, None, None]);
    assert_eq!((s.screen_w, s.screen_h), (200, 300));
    assert_eq!((s.score, s.lives, s.enemy_count), (0, 3, 1));
    assert_eq!(s.play_state, PlayState::NotStarted);
    assert!(s.player_visible);
    assert_eq!((s.target_x, s.target_y), (110, 210));
    let mut expected = AppState::new();
    expected.set_screen_size(200, 300);
    expected.rng = 77;
    for _ in 0..32 {
        expected.rand_range(120);
        expected.rand_range(220);
    }
    assert_eq!(s.rng, expected.rng);
}

#[test]
fn restart_places_the_enemy_from_the_kept_seed() {
    let mut s = sized_game(720, 1280);
    s.score = 9;
    let spots = s.restart(&rect(100, 100, 110, 110), &start_enemies());
    assert_eq!(spots, [Some((470, 1033)), None, None]);
    assert_eq!((s.score, s.rng), (0, 967524231));
}

#[test]
fn pickup_gain_reports_what_a_pickup_would_score() {
    let mut s = sized_game(720, 1280);
    assert_eq!(s.pickup_gain(&rect(250, 250, 110, 110)), 1);
    assert_eq!(s.pickup_gain(&rect(0, 0, 10, 10)), 0);
    s.golden_target_active = true;
    s.golden_target_x = 240;
    s.golden_target_y = 240;
    assert_eq!(s.pickup_gain(&rect(250, 250, 110, 110)), 3);
    s.golden_target_active = false;
    assert_eq!(s.pickup_gain(&rect(250, 250, 110, 110)), 1);
}
