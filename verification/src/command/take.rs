//! `Take`: picks an item up from the room.

use crate::game::Game;
use crate::game::GameView;
use crate::objects::position;
use crate::world::lemma_current_index;
use crate::world::lemma_with_current_wf;
use vstd::prelude::*;
use vstd::string::StringExecFns;

verus! {

/// The command that picks up the item called `item`.
#[derive(Debug)]
pub struct TakeCommand {
    pub item: String,
}

impl GameView {
    /// Whether picking up the item called `name` keeps the player's gold
    /// within what a `u32` holds.
    pub open spec fn can_take(self, name: Seq<char>) -> bool {
        position(self.world.current().visible, name) matches Some(i)
            ==> self.world.player.can_pick_up(self.world.current().visible[i])
    }

    /// The game after the player has picked up the item called `name`: the
    /// first item of that name in sight has left the room and the player
    /// has picked it up. Nothing changes where no such item is in sight.
    pub open spec fn taken(self, name: Seq<char>) -> GameView {
        let room = self.world.current();
        match position(room.visible, name) {
            Some(i) => self.with_world(
                self.world.with_current(room.without_item(name)).with_player(
                    self.world.player.after_pickup(room.visible[i]),
                ),
            ),
            None => self,
        }
    }

    /// What is said of picking up the item called `name`.
    pub open spec fn take_text(self, name: Seq<char>) -> Seq<char> {
        let room = self.world.current();
        match position(room.visible, name) {
            Some(i) => room.move_item_text(name) + self.world.player.pickup_text(room.visible[i]),
            None => room.move_item_text(name),
        }
    }
}

impl TakeCommand {
    /// Moves the first item in sight that has the name from the room in
    /// which the player stands to the player.
    pub fn execute(&self, game: &mut Game) -> (out: String)
        requires
            old(game)@.wf(),
            old(game)@.can_take(self.item@),
        ensures
            final(game)@ == old(game)@.taken(self.item@),
            out@ == old(game)@.take_text(self.item@),
            final(game)@.wf(),
    {
        let world = game.get_world();
        let ghost before = world@;
        let current_room = world.get_current_room_mut();
        let taken = current_room.move_item(self.item.as_str());
        proof {
            lemma_current_index(before);
            lemma_with_current_wf(before, before.current().without_item(self.item@));
        }
        let mut out: String = taken.1;
        if let Some(new_item) = taken.0 {
            let player = world.get_player_mut();
            let told: String = player.fill_backpack(new_item);
            out.append(told.as_str());
        }
        out
    }
}

} // verus!
