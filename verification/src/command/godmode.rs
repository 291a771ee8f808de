//! `Godmode`: switches godmode over.

use crate::game::Game;
use crate::game::GameView;
use vstd::prelude::*;

verus! {

/// The command that switches godmode over.
#[derive(Debug)]
pub struct GodmodeCommand {}

impl GameView {
    /// The game with the player's godmode switched over.
    pub open spec fn godmode_toggled(self) -> GameView {
        self.with_world(self.world.with_player(self.world.player.toggled()))
    }
}

impl GodmodeCommand {
    /// Switches the player's godmode on if it is off, and off if it is on.
    pub fn execute(&self, game: &mut Game) -> (out: String)
        ensures
            final(game)@ == old(game)@.godmode_toggled(),
            out@ == Seq::<char>::empty(),
            old(game)@.wf() ==> final(game)@.wf(),
    {
        let world = game.get_world();
        let player = world.get_player_mut();
        player.toggle_godmode();
        String::new()
    }
}

} // verus!
