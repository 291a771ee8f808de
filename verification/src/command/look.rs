//! `Look`: shows the room and the enemies in it.

use crate::game::Game;
use vstd::prelude::*;

verus! {

/// The command that shows where the player stands.
#[derive(Debug)]
pub struct LookCommand {}

impl LookCommand {
    /// Shows the room in which the player stands and the enemies in it. The
    /// game stays as it is.
    pub fn execute(&self, game: &mut Game) -> (out: String)
        requires
            old(game)@.wf(),
        ensures
            final(game)@ == old(game)@,
            out@ == old(game)@.world.show_text(),
    {
        let world = game.get_world();
        world.show()
    }
}

} // verus!
