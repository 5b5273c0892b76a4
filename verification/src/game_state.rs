//! The game-state machine: InGame until health is drained, GameOver until an
//! external restart signal resets the whole session.

use vstd::prelude::*;

use crate::collisions::{session_inv, Stats, HEALTH_START};
use crate::registry::{reg_wf, Registry};

verus! {

#[derive(Clone, Copy, PartialEq, Eq, Structural, Debug, Hash)]
pub enum GameState {
    InGame,
    GameOver,
}

/// React to the restart signal. The signal is only meaningful in the
/// game-over state; there it resets the session state to a fresh score and
/// full health, returns to play, and clears every asteroid and projectile
/// (the player entity survives). In any other situation nothing changes.
pub fn handle_game_over_input(
    reg: &mut Registry,
    stats: &mut Stats,
    gs: &mut GameState,
    restart_pressed: bool,
)
    requires
        reg_wf(old(reg)@),
        session_inv(*old(stats), *old(gs)),
    ensures
        (restart_pressed && *old(gs) is GameOver) ==> {
            &&& *final(gs) is InGame
            &&& *final(stats) == (Stats { score: 0, health: HEALTH_START })
            &&& final(reg)@.asteroids.len() == 0
            &&& final(reg)@.projectiles.len() == 0
            &&& final(reg)@.player == old(reg)@.player
            &&& final(reg)@.next_id == old(reg)@.next_id
        },
        !(restart_pressed && *old(gs) is GameOver) ==> {
            &&& *final(gs) == *old(gs)
            &&& *final(stats) == *old(stats)
            &&& final(reg)@ == old(reg)@
        },
        reg_wf(final(reg)@),
        session_inv(*final(stats), *final(gs)),
{
    if restart_pressed && *gs == GameState::GameOver {
        reg.asteroids.clear();
        reg.projectiles.clear();
        *stats = Stats { score: 0, health: HEALTH_START };
        *gs = GameState::InGame;
    }
}

} // verus!
