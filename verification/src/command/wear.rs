//! `Wear`: equips an item of the backpack.

use crate::game::Game;
use crate::game::GameView;
use vstd::prelude::*;

verus! {

/// The command that equips the item called `item`.
#[derive(Debug)]
pub struct WearCommand {
    pub item: String,
}

impl GameView {
    /// The game after the player has equipped the item called `name`; see
    /// [`crate::player::PlayerView::equipped`].
    pub open spec fn worn(self, name: Seq<char>) -> GameView {
        self.with_world(self.world.with_player(self.world.player.equipped(name)))
    }
}

impl WearCommand {
    /// Equips the first item of the backpack that has the name, if it is a
    /// weapon or an armor.
    pub fn execute(&self, game: &mut Game) -> (out: String)
        ensures
            final(game)@ == old(game)@.worn(self.item@),
            out@ == old(game)@.world.player.equip_text(self.item@),
            old(game)@.wf() ==> final(game)@.wf(),
    {
        let world = game.get_world();
        let player = world.get_player_mut();
        player.equip_item(self.item.as_str())
    }
}

} // verus!
