//! `Consume`: drinks a potion of the backpack.

use crate::game::Game;
use crate::game::GameView;
use vstd::prelude::*;

verus! {

/// The command that consumes the item called `item`.
#[derive(Debug)]
pub struct ConsumeCommand {
    pub item: String,
}

impl GameView {
    /// The game after the player has consumed the item called `name`; see
    /// [`crate::player::PlayerView::after_consume`].
    pub open spec fn consumed(self, name: Seq<char>) -> GameView {
        self.with_world(self.world.with_player(self.world.player.after_consume(name)))
    }
}

impl ConsumeCommand {
    /// Consumes the first item of the backpack that has the name, if it is
    /// a potion.
    pub fn execute(&self, game: &mut Game) -> (out: String)
        requires
            old(game)@.world.player.can_consume(self.item@),
        ensures
            final(game)@ == old(game)@.consumed(self.item@),
            out@ == old(game)@.world.player.consume_text(self.item@),
            old(game)@.wf() ==> final(game)@.wf(),
    {
        let world = game.get_world();
        let player = world.get_player_mut();
        player.consume_potion(self.item.as_str())
    }
}

} // verus!
