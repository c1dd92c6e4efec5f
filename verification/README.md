# sdl_game

Rules of a small arcade game for an SDL front end: the player chases a
target (and, from level 2, a golden target) while enemies bounce around a
central wall.

- `src/` is the verified library. It holds the integer side of the
  game: rectangles and their collisions, the play state, score, lives and
  level, the linear congruential generator and every placement it drives
  (targets and golden target clear of the enemies in play and the wall, joining enemies), the enemy count per level, and the
  pickup and hit rules. Every operation keeps `AppState::wf`.
- `app/` is the C interface and the continuous motion: `f32` positions and
  velocities of the player and the enemies, knockback, blinking, particles
  (drawn with `rand`). It rounds positions to rectangles and asks the
  library for each decision.
- `tests/` runs the library on concrete games.
