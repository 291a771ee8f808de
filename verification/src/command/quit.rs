//! `Quit`: ends the game.

use crate::game::Game;
use vstd::prelude::*;

verus! {

/// The command that ends the game.
#[derive(Debug)]
pub struct QuitCommand {}

impl QuitCommand {
    /// Stops the game.
    pub fn execute(&self, game: &mut Game) -> (out: String)
        ensures
            final(game)@ == old(game)@.stopped(),
            out@ == "End Game\n"@,
    {
        game.quit_game();
        "End Game\n".to_owned()
    }
}

} // verus!
