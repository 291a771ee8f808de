//! `Put`: lays an item of the player down in the room.

use crate::game::Game;
use crate::game::GameView;
use crate::world::lemma_with_current_wf;
use vstd::prelude::*;

verus! {

/// The command that lays the item called `item` down.
#[derive(Debug)]
pub struct PutCommand {
    pub item: String,
}

impl GameView {
    /// The game after the player has laid down the item called `name`: the
    /// item that the player parts with lies in sight in the room, behind
    /// the others. Nothing changes where the player has no such item.
    pub open spec fn put_down(self, name: Seq<char>) -> GameView {
        match self.world.player.item_to_remove(name) {
            Some(item) => self.with_world(
                self.world.with_player(self.world.player.without_item(name)).with_current(
                    self.world.current().with_item(item),
                ),
            ),
            None => self,
        }
    }
}

impl PutCommand {
    /// Takes the named item from the player (the weapon in hand, else the
    /// armor worn, else the first such item of the backpack) and lays it in
    /// sight in the room in which the player stands.
    pub fn execute(&self, game: &mut Game) -> (out: String)
        requires
            old(game)@.wf(),
        ensures
            final(game)@ == old(game)@.put_down(self.item@),
            out@ == old(game)@.world.player.remove_text(self.item@),
            final(game)@.wf(),
    {
        let world = game.get_world();
        let player = world.get_player_mut();
        let removed = player.remove_item(self.item.as_str());
        if let Some(item) = removed.0 {
            proof {
                lemma_with_current_wf(world@, world@.current().with_item(item@));
            }
            let current_room = world.get_current_room_mut();
            current_room.insert_item(item);
        }
        removed.1
    }
}

} // verus!
