//! Input handling: a single key binding that toggles the pause flag on a
//! just-pressed edge. The engine answers the edge query; the decision —
//! flip the flag exactly when the edge fired, touch nothing else — is made
//! and proved here.

use vstd::prelude::*;

use crate::plugin::GameOfLife;

verus! {

/// What one frame of input handling does to the configuration: the pause
/// flag flips exactly when the designated key was just pressed; the
/// dimensions never change.
pub open spec fn spec_toggled(game: GameOfLife, space_just_pressed: bool) -> GameOfLife {
    GameOfLife {
        is_paused: game.is_paused != space_just_pressed,
        ..game
    }
}

/// The configuration after the designated key has been pressed `presses`
/// times, one frame each.
pub open spec fn spec_toggled_times(game: GameOfLife, presses: nat) -> GameOfLife
    decreases presses,
{
    if presses == 0 {
        game
    } else {
        spec_toggled(spec_toggled_times(game, (presses - 1) as nat), true)
    }
}

/// Runs once per frame: on a just-pressed edge of the designated key the
/// pause flag flips; a held or released key changes nothing.
pub fn keyboard_input(space_just_pressed: bool, game: &mut GameOfLife)
    ensures
        *final(game) == spec_toggled(*old(game), space_just_pressed),
{
    if space_just_pressed {
        game.is_paused = !game.is_paused;
    }
}

/// Pressing the designated key an even number of times returns the pause
/// flag to its original value; an odd number of times flips it. The
/// dimensions are untouched either way.
pub proof fn lemma_toggle_parity(game: GameOfLife, presses: nat)
    ensures
        spec_toggled_times(game, presses).is_paused == (if presses % 2 == 0 {
            game.is_paused
        } else {
            !game.is_paused
        }),
        spec_toggled_times(game, presses).width == game.width,
        spec_toggled_times(game, presses).height == game.height,
    decreases presses,
{
    if presses > 0 {
        lemma_toggle_parity(game, (presses - 1) as nat);
    }
}

} // verus!
