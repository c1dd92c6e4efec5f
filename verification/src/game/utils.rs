//! The pseudo-random generator of the game: a 32-bit linear congruential
//! generator whose seed lives in the game state.

use vstd::prelude::*;

use crate::model::AppState;

verus! {

/// Multiplier of the generator.
pub const LCG_MULTIPLIER: u32 = 1664525;
/// Increment of the generator.
pub const LCG_INCREMENT: u32 = 1013904223;

/// The seed that follows `seed`: `(1664525 * seed + 1013904223) mod 2^32`.
pub open spec fn lcg_next(seed: u32) -> u32 {
    ((seed * 1664525 + 1013904223) % 0x1_0000_0000) as u32
}

/// The seed after a draw in `[0, max_inclusive]`: a draw with a bound
/// that is not positive consumes nothing.
pub open spec fn seed_after_draw(seed: u32, max_inclusive: i32) -> u32 {
    if max_inclusive <= 0 {
        seed
    } else {
        lcg_next(seed)
    }
}

/// The value of a draw in `[0, max_inclusive]`: the next seed modulo
/// `max_inclusive + 1`, or 0 when the bound is not positive.
pub open spec fn drawn_value(seed: u32, max_inclusive: i32) -> i32 {
    if max_inclusive <= 0 {
        0
    } else {
        (lcg_next(seed) % (max_inclusive + 1) as u32) as i32
    }
}

impl AppState {
    /// The same state with another seed.
    pub open spec fn with_rng(self, rng: u32) -> AppState {
        AppState { rng, ..self }
    }
}

proof fn lemma_lcg_step(seed: u32)
    ensures
        seed.wrapping_mul(1664525).wrapping_add(1013904223) == lcg_next(seed),
{
    let m: int = 0x1_0000_0000;
    let p: int = seed as int * 1664525;
    let r: int = p % m;
    assert(0 <= r < m) by (nonlinear_arith)
        requires
            m == 0x1_0000_0000,
            r == p % m,
    ;
    vstd::arithmetic::div_mod::lemma_add_mod_noop(p, 1013904223, m);
    vstd::arithmetic::div_mod::lemma_small_mod(1013904223nat, m as nat);
    if r + 1013904223 >= m {
        vstd::arithmetic::div_mod::lemma_mod_sub_multiples_vanish(r + 1013904223 - m, m);
        vstd::arithmetic::div_mod::lemma_small_mod((r + 1013904223 - m) as nat, m as nat);
    } else {
        vstd::arithmetic::div_mod::lemma_small_mod((r + 1013904223) as nat, m as nat);
    }
}

/// Advances the generator and returns the new seed.
pub fn next_rand(state: &mut AppState) -> (r: u32)
    ensures
        r == lcg_next(old(state).rng),
        *final(state) == old(state).with_rng(r),
{
    proof {
        lemma_lcg_step(state.rng);
    }
    state.rng = state.rng.wrapping_mul(LCG_MULTIPLIER).wrapping_add(LCG_INCREMENT);
    state.rng
}

/// Draws a value in `[0, max_inclusive]`; a bound that is not positive
/// gives 0 and leaves the generator untouched.
pub fn rand_range(state: &mut AppState, max_inclusive: i32) -> (r: i32)
    ensures
        r == drawn_value(old(state).rng, max_inclusive),
        *final(state) == old(state).with_rng(seed_after_draw(old(state).rng, max_inclusive)),
        0 <= r,
        max_inclusive > 0 ==> r <= max_inclusive,
        max_inclusive <= 0 ==> r == 0,
{
    if max_inclusive <= 0 {
        0
    } else {
        let n = next_rand(state);
        let v = n % ((max_inclusive as u32) + 1);
        v as i32
    }
}

} // verus!
