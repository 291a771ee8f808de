//! `See`: looks at an enemy, which brings what it carries to light.

use crate::game::Game;
use crate::game::GameView;
use vstd::prelude::*;

verus! {

/// The command that looks at the enemy called `enemy_name`.
#[derive(Debug)]
pub struct SeeCommand {
    pub enemy_name: String,
}

impl GameView {
    /// The game after a look at the enemy called `name`; see
    /// [`crate::world::WorldView::looted`].
    pub open spec fn seen(self, name: Seq<char>) -> GameView {
        self.with_world(self.world.looted(name))
    }
}

impl SeeCommand {
    /// Lays what the named enemy carries in sight in the room in which the
    /// player stands, whether the enemy is alive or dead.
    pub fn execute(&self, game: &mut Game) -> (out: String)
        requires
            old(game)@.wf(),
        ensures
            final(game)@ == old(game)@.seen(self.enemy_name@),
            out@ == old(game)@.world.loot_text(self.enemy_name@),
            final(game)@.wf(),
    {
        let world = game.get_world();
        world.move_enemy_items_to_current_room(self.enemy_name.as_str())
    }
}

} // verus!
