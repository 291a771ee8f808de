//! `SeePlayer`: shows the player.

use crate::game::Game;
use vstd::prelude::*;

verus! {

/// The command that shows the player.
#[derive(Debug)]
pub struct SeePlayerCommand {}

impl SeePlayerCommand {
    /// Shows the player. The game stays as it is.
    pub fn execute(&self, game: &mut Game) -> (out: String)
        ensures
            final(game)@ == old(game)@,
            out@ == old(game)@.world.player.show_text(),
    {
        let world = game.get_world();
        let player = world.get_player();
        player.show()
    }
}

} // verus!
